use cs_codegen::emit::join_namespace;
use cs_codegen::Class;
use cs_codegen::Fields;
use cs_codegen::Method;
use cs_codegen::Methods;
use cs_codegen::Type;
use cs_codegen::Variable;

fn var(t: Type, name: &str) -> Variable {
    Variable {
        t,
        name: name.to_string(),
    }
}

fn example_class() -> Class {
    let mut fields = Fields::new();
    fields.insert(var(Type::I32, "a"));
    fields.insert(var(Type::String, "b"));
    fields.insert(var(Type::Unknown, "c"));
    Class {
        namespace: vec!["Example".to_string(), "Namespace".to_string()],
        name: "ExampleClass".to_string(),
        fields,
        methods: Methods::new(),
    }
}

#[test]
fn resolves_keyword_display_and_qualified_aliases() {
    for name in ["sbyte", "SByte", "System.SByte"] {
        assert_eq!(Type::from_name(name), Type::I8);
    }
    for name in ["byte", "Byte", "System.Byte", "bool", "Boolean", "System.Boolean"] {
        assert_eq!(Type::from_name(name), Type::U8);
    }
    for name in ["short", "Int16", "System.Int16"] {
        assert_eq!(Type::from_name(name), Type::I16);
    }
    for name in ["ushort", "UInt16", "System.UInt16", "char", "Char", "System.Char"] {
        assert_eq!(Type::from_name(name), Type::U16);
    }
    for name in ["int", "Int32", "System.Int32"] {
        assert_eq!(Type::from_name(name), Type::I32);
    }
    for name in ["uint", "UInt32", "System.UInt32"] {
        assert_eq!(Type::from_name(name), Type::U32);
    }
    for name in ["long", "Int64", "System.Int64"] {
        assert_eq!(Type::from_name(name), Type::I64);
    }
    for name in ["ulong", "UInt64", "System.UInt64"] {
        assert_eq!(Type::from_name(name), Type::U64);
    }
    for name in ["float", "Float", "System.Float"] {
        assert_eq!(Type::from_name(name), Type::F32);
    }
    for name in ["double", "Double", "System.Double"] {
        assert_eq!(Type::from_name(name), Type::F64);
    }
    for name in ["IntPtr", "System.IntPtr"] {
        assert_eq!(Type::from_name(name), Type::ISize);
    }
    for name in ["UintPtr", "System.UIntPtr"] {
        assert_eq!(Type::from_name(name), Type::Usize);
    }
    for name in ["string", "String", "System.String"] {
        assert_eq!(Type::from_name(name), Type::String);
    }
    for name in ["object", "Object", "System.Object"] {
        assert_eq!(Type::from_name(name), Type::Object);
    }
    for name in ["void", "Void", "System.Void"] {
        assert_eq!(Type::from_name(name), Type::Unit);
    }
}

#[test]
fn resolution_is_total_unrecognized_yields_unknown() {
    for name in ["Foo.Bar", "", "INT", "int32", " int", "System.Int32 ", "Sys.Void"] {
        assert_eq!(Type::from_name(name), Type::Unknown);
    }
}

#[test]
fn native_tokens_are_exact() {
    assert_eq!(Type::I8.native_str(), "i8");
    assert_eq!(Type::U8.native_str(), "u8");
    assert_eq!(Type::I16.native_str(), "i16");
    assert_eq!(Type::U16.native_str(), "u16");
    assert_eq!(Type::I32.native_str(), "i32");
    assert_eq!(Type::U32.native_str(), "u32");
    assert_eq!(Type::I64.native_str(), "i64");
    assert_eq!(Type::U64.native_str(), "u64");
    assert_eq!(Type::F32.native_str(), "f32");
    assert_eq!(Type::F64.native_str(), "f64");
    assert_eq!(Type::ISize.native_str(), "isize");
    assert_eq!(Type::Usize.native_str(), "usize");
    assert_eq!(
        Type::String.native_str(),
        "*mut symphony_il2cpp::types::Il2CppString"
    );
    assert_eq!(
        Type::Object.native_str(),
        "*mut symphony_il2cpp::types::Il2CppObject"
    );
    assert_eq!(Type::Unit.native_str(), "()");
    assert_eq!(Type::Unknown.native_str(), "*mut std::ffi::c_void");
}

#[test]
fn aliases_share_one_native_representation() {
    let int_repr = Type::from_name("int").native_str();
    assert_eq!(Type::from_name("Int32").native_str(), int_repr);
    assert_eq!(Type::from_name("System.Int32").native_str(), int_repr);
    assert_eq!(int_repr, "i32");

    let bool_repr = Type::from_name("bool").native_str();
    assert_eq!(Type::from_name("Boolean").native_str(), bool_repr);
    assert_eq!(Type::from_name("System.Boolean").native_str(), bool_repr);
    assert_eq!(bool_repr, "u8");
}

#[test]
fn field_set_collapses_structural_duplicates() {
    let mut fields = Fields::new();
    fields.insert(var(Type::I32, "hp"));
    fields.insert(var(Type::I32, "hp"));
    assert_eq!(fields.len(), 1);

    fields.insert(var(Type::U8, "hp"));
    assert_eq!(fields.len(), 2);

    fields.insert(var(Type::I32, "mp"));
    assert_eq!(fields.len(), 3);
    assert!(fields.contains(&var(Type::I32, "hp")));
    assert!(!fields.contains(&var(Type::U16, "hp")));
}

#[test]
fn method_set_collapses_identical_signatures() {
    let mut methods = Methods::new();
    let args = vec![var(Type::I32, "x"), var(Type::String, "s")];
    methods.insert(Method::new(Type::Unit, "go".to_string(), true, args.clone()));
    methods.insert(Method::new(Type::Unit, "go".to_string(), true, args.clone()));
    assert_eq!(methods.len(), 1);

    methods.insert(Method::new(Type::Unit, "go".to_string(), false, args.clone()));
    assert_eq!(methods.len(), 2);

    methods.insert(Method::new(Type::I32, "go".to_string(), true, args.clone()));
    assert_eq!(methods.len(), 3);

    methods.insert(Method::new(Type::Unit, "go".to_string(), true, vec![var(Type::I32, "x")]));
    assert_eq!(methods.len(), 4);
}

#[test]
fn emission_is_deterministic_across_insertion_orders() {
    let mut forward = Fields::new();
    forward.insert(var(Type::I32, "a"));
    forward.insert(var(Type::String, "b"));
    forward.insert(var(Type::Unknown, "c"));
    let mut backward = Fields::new();
    backward.insert(var(Type::Unknown, "c"));
    backward.insert(var(Type::String, "b"));
    backward.insert(var(Type::I32, "a"));

    let c1 = Class {
        namespace: vec!["Example".to_string(), "Namespace".to_string()],
        name: "ExampleClass".to_string(),
        fields: forward,
        methods: Methods::new(),
    };
    let c2 = Class {
        namespace: vec!["Example".to_string(), "Namespace".to_string()],
        name: "ExampleClass".to_string(),
        fields: backward,
        methods: Methods::new(),
    };
    assert_eq!(c1.emit(), c2.emit());
}

#[test]
fn emission_twice_on_same_value_is_byte_identical() {
    let class = example_class();
    assert_eq!(class.emit(), class.emit());
}

#[test]
fn clone_emits_identically() {
    let class = example_class();
    assert_eq!(class.clone().emit(), class.emit());
}

#[test]
fn fields_share_a_name_tie_broken_by_type() {
    let mut fields = Fields::new();
    fields.insert(var(Type::I32, "a"));
    fields.insert(var(Type::U8, "a"));
    let class = Class {
        namespace: vec!["N".to_string()],
        name: "C".to_string(),
        fields,
        methods: Methods::new(),
    };
    let out = class.emit();
    let u8_pos = out.find("    pub a: u8,\n").expect("u8 member missing");
    let i32_pos = out.find("    pub a: i32,\n").expect("i32 member missing");
    assert!(u8_pos < i32_pos);
}

#[test]
fn example_class_emits_expected_unit() {
    let class = example_class();
    let expected = "#[repr(align(8))]\n#[derive(Copy, Clone, Debug)]\npub struct fields_ExampleClass {\n    pub a: i32,\n    pub b: *mut symphony_il2cpp::types::Il2CppString,\n    pub c: *mut std::ffi::c_void,\n}\n\n#[derive(Copy, Clone, Debug)]\npub struct ExampleClass {\n    pub inner: *mut symphony_il2cpp::types::Il2CppObject,\n    pub class: *mut symphony_il2cpp::types::Il2CppClass,\n    pub fields: Option<fields_ExampleClass>,\n}\n\nimpl std::convert::TryFrom<*mut symphony_il2cpp::types::Il2CppObject> for ExampleClass {\n    type Error = symphony_il2cpp::error::Error;\n\n    fn try_from(value: *mut symphony_il2cpp::types::Il2CppObject) -> Result<Self, Self::Error> {\n        let class = symphony_il2cpp::utils::get_class_from_name(\"Example.Namespace\", \"ExampleClass\")?;\n        Ok(Self {\n            inner: value,\n            class,\n            fields: None,\n        })\n    }\n}\n";
    assert_eq!(class.emit(), expected);
}

#[test]
fn empty_sets_emit_empty_fields_struct_and_full_wrapper() {
    let class = Class {
        namespace: vec!["Example".to_string(), "Namespace".to_string()],
        name: "Empty".to_string(),
        fields: Fields::new(),
        methods: Methods::new(),
    };
    let expected = "#[repr(align(8))]\n#[derive(Copy, Clone, Debug)]\npub struct fields_Empty {\n}\n\n#[derive(Copy, Clone, Debug)]\npub struct Empty {\n    pub inner: *mut symphony_il2cpp::types::Il2CppObject,\n    pub class: *mut symphony_il2cpp::types::Il2CppClass,\n    pub fields: Option<fields_Empty>,\n}\n\nimpl std::convert::TryFrom<*mut symphony_il2cpp::types::Il2CppObject> for Empty {\n    type Error = symphony_il2cpp::error::Error;\n\n    fn try_from(value: *mut symphony_il2cpp::types::Il2CppObject) -> Result<Self, Self::Error> {\n        let class = symphony_il2cpp::utils::get_class_from_name(\"Example.Namespace\", \"Empty\")?;\n        Ok(Self {\n            inner: value,\n            class,\n            fields: None,\n        })\n    }\n}\n";
    assert_eq!(class.emit(), expected);
}

#[test]
fn default_sets_are_empty() {
    let fields = Fields::default();
    let methods = Methods::default();
    assert_eq!(fields.len(), 0);
    assert_eq!(methods.len(), 0);
}

#[test]
fn variable_renders_name_and_native_type() {
    assert_eq!(var(Type::I32, "a").render(), "a: i32");
    assert_eq!(
        var(Type::Unknown, "c").render(),
        "c: *mut std::ffi::c_void"
    );
    assert_eq!(
        var(Type::String, "title").render(),
        "title: *mut symphony_il2cpp::types::Il2CppString"
    );
}

#[test]
fn namespace_segments_join_with_dots() {
    assert_eq!(
        join_namespace(&vec!["Example".to_string(), "Namespace".to_string()]),
        "Example.Namespace"
    );
    assert_eq!(join_namespace(&vec!["Single".to_string()]), "Single");
    assert_eq!(join_namespace(&vec![]), "");
    assert_eq!(
        join_namespace(&vec!["A".to_string(), "B".to_string(), "C".to_string()]),
        "A.B.C"
    );
}
