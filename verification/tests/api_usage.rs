use traitreg::{RegisteredImpl, Registry, TraitRegStorage, __register_impl};

trait MyTrait {
    fn tag(&self) -> u32;
}

struct MyStruct;

impl MyTrait for MyStruct {
    fn tag(&self) -> u32 {
        1
    }
}

impl RegisteredImpl<Box<dyn MyTrait>> for MyStruct {
    const NAME: &'static str = "MyStruct";
    const PATH: &'static str = "MyStruct";
    const FILE: &'static str = "tests/api_usage.rs";
    const MODULE_PATH: &'static str = "api_usage";
    const TRAIT_NAME: &'static str = "MyTrait";
    const HAS_CONSTRUCTOR: bool = false;

    fn instanciate() -> Option<Box<dyn MyTrait>> {
        None
    }
}

enum MyEnum {
    MyEnumVariant,
}

impl MyEnum {
    pub fn new() -> Self {
        Self::MyEnumVariant
    }
}

impl MyTrait for MyEnum {
    fn tag(&self) -> u32 {
        2
    }
}

impl RegisteredImpl<Box<dyn MyTrait>> for MyEnum {
    const NAME: &'static str = "MyEnum";
    const PATH: &'static str = "MyEnum";
    const FILE: &'static str = "tests/api_usage.rs";
    const MODULE_PATH: &'static str = "api_usage";
    const TRAIT_NAME: &'static str = "MyTrait";
    const HAS_CONSTRUCTOR: bool = true;

    fn instanciate() -> Option<Box<dyn MyTrait>> {
        Some(Box::new(Self::new()))
    }
}

#[derive(Default)]
struct Dummy;

type MyType = Dummy;

impl MyTrait for MyType {
    fn tag(&self) -> u32 {
        3
    }
}

impl RegisteredImpl<Box<dyn MyTrait>> for MyType {
    const NAME: &'static str = "MyType";
    const PATH: &'static str = "MyType";
    const FILE: &'static str = "tests/api_usage.rs";
    const MODULE_PATH: &'static str = "api_usage";
    const TRAIT_NAME: &'static str = "MyTrait";
    const HAS_CONSTRUCTOR: bool = true;

    fn instanciate() -> Option<Box<dyn MyTrait>> {
        Some(Box::new(Self::default()))
    }
}

union MyUnion {
    #[allow(unused)]
    small: u8,
    large: u32,
}

impl MyUnion {
    pub fn new() -> Self {
        Self { large: 0 }
    }
}

impl MyTrait for MyUnion {
    fn tag(&self) -> u32 {
        4
    }
}

impl RegisteredImpl<Box<dyn MyTrait>> for MyUnion {
    const NAME: &'static str = "MyUnion";
    const PATH: &'static str = "MyUnion";
    const FILE: &'static str = "tests/api_usage.rs";
    const MODULE_PATH: &'static str = "api_usage";
    const TRAIT_NAME: &'static str = "MyTrait";
    const HAS_CONSTRUCTOR: bool = true;

    fn instanciate() -> Option<Box<dyn MyTrait>> {
        Some(Box::new(Self::new()))
    }
}

#[test]
fn api_usage_ui() {
    // An empty registry.
    let mut empty = Registry::new();
    let nothing = TraitRegStorage::<Box<dyn MyTrait>>::__new(&mut empty, "MyTrait");
    assert_eq!(nothing.iter().count(), 0);

    // A struct, an enum, a type alias and a union.
    let mut registry = Registry::new();
    __register_impl::<Box<dyn MyTrait>, MyStruct>(&mut registry);
    __register_impl::<Box<dyn MyTrait>, MyEnum>(&mut registry);
    __register_impl::<Box<dyn MyTrait>, MyType>(&mut registry);
    __register_impl::<Box<dyn MyTrait>, MyUnion>(&mut registry);
    let items = TraitRegStorage::<Box<dyn MyTrait>>::__new(&mut registry, "MyTrait");

    assert_eq!(items.iter().count(), 4);
    let names: Vec<&str> = items.iter().map(|registered| registered.name()).collect();
    assert_eq!(names, vec!["MyStruct", "MyEnum", "MyType", "MyUnion"]);
    let tags: Vec<u32> = items.instanciate_all().iter().map(|instance| instance.tag()).collect();
    assert_eq!(tags, vec![2, 3, 4]);
    for registered in items.iter() {
        assert_eq!(registered.trait_name(), "MyTrait");
        assert_eq!(registered.file(), "tests/api_usage.rs");
        assert_eq!(registered.module(), "api_usage");
        assert_eq!(registered.instanciate().is_some(), registered.has_constructor());
    }
}
