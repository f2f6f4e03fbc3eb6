//! The inspection text of a record.

use vstd::prelude::*;
use vstd::string::StringExecFns;
use crate::registration::ImplInfo;

verus! {

/// The text that the standard library's debug formatting of strings gives
/// for `text`: `text` between double quotes, with its quotes, backslashes
/// and unprintable characters escaped.
pub uninterp spec fn debug_text(text: Seq<char>) -> Seq<char>;

/// Trusted: `format!` with `{:?}`, that is `<str as Debug>::fmt`. The
/// result is named, not spelled out: it depends on `text` alone.
#[verifier::external_body]
pub(crate) fn quote_text(text: &str) -> (quoted: String)
    ensures
        quoted@ == debug_text(text@),
{
    format!("{:?}", text)
}

/// How a flag is written.
pub open spec fn flag_text(flag: bool) -> Seq<char> {
    if flag {
        "true"@
    } else {
        "false"@
    }
}

/// The inspection text of a record whose fields are already written out:
/// the six fields in a fixed order, each behind its label.
pub open spec fn layout(
    name: Seq<char>,
    path: Seq<char>,
    trait_name: Seq<char>,
    has_constructor: bool,
    module: Seq<char>,
    file: Seq<char>,
) -> Seq<char> {
    "RegisteredImpl { Type Name: "@ + name + ", Type Path: "@ + path + ", Trait Name: "@
        + trait_name + ", Has Constructor: "@ + flag_text(has_constructor) + ", Module Path: "@
        + module + ", File: "@ + file + " }"@
}

/// The inspection text of a registration: its strings are written as the
/// standard debug formatting writes strings.
pub open spec fn rendering(info: ImplInfo) -> Seq<char> {
    layout(
        debug_text(info.name),
        debug_text(info.path),
        debug_text(info.trait_name),
        info.has_constructor,
        debug_text(info.module),
        debug_text(info.file),
    )
}

/// Lays out the inspection text of a record from its fields as they are to
/// appear.
pub fn render(
    name: &str,
    path: &str,
    trait_name: &str,
    has_constructor: bool,
    module: &str,
    file: &str,
) -> (text: String)
    ensures
        text@ == layout(name@, path@, trait_name@, has_constructor, module@, file@),
{
    let mut text = String::from_str("RegisteredImpl { Type Name: ");
    text.append(name);
    text.append(", Type Path: ");
    text.append(path);
    text.append(", Trait Name: ");
    text.append(trait_name);
    text.append(", Has Constructor: ");
    if has_constructor {
        text.append("true");
    } else {
        text.append("false");
    }
    text.append(", Module Path: ");
    text.append(module);
    text.append(", File: ");
    text.append(file);
    text.append(" }");
    text
}

} // verus!
