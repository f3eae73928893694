use javap::instr::Instruction;
use javap::model::{ClassAccess, ClassModel, Code, ExceptionTableEntry, Method, MethodAccess,
    PoolEntry, RenderError};
use javap::render::render_class;

fn chars(s: &str) -> Vec<char> {
    s.chars().collect()
}

/// A class like one compiled from an empty `Dummy.java`: a single instance
/// initializer delegating to `java/lang/Object.<init>`.
fn dummy_class() -> ClassModel {
    ClassModel {
        minor_version: 0,
        major_version: 52,
        access_flags: vec![ClassAccess::Public, ClassAccess::Super],
        class_name: chars("Dummy"),
        source_file: Some(chars("Dummy.java")),
        constant_pool: vec![
            PoolEntry::Methodref { class_index: 2, name_and_type_index: 3 },
            PoolEntry::Class { name_index: 4 },
            PoolEntry::NameAndType { name_index: 5, descriptor_index: 6 },
            PoolEntry::Utf8(chars("java/lang/Object")),
            PoolEntry::Utf8(chars("<init>")),
            PoolEntry::Utf8(chars("()V")),
            PoolEntry::Class { name_index: 8 },
            PoolEntry::Utf8(chars("Dummy")),
            PoolEntry::Utf8(chars("Dummy.java")),
        ],
        methods: vec![
            Method {
                access_flags: vec![MethodAccess::Public],
                name_index: 5,
                descriptor_index: 6,
                code: Some(Code {
                    max_stack: 1,
                    max_locals: 1,
                    code: vec![
                        (0, Instruction::Aload0),
                        (1, Instruction::Invokespecial(1)),
                        (4, Instruction::Return),
                    ],
                    exception_table: Vec::new(),
                }),
            },
        ],
    }
}

/// A class like one compiled from `IntBox.java`: a constructor storing a
/// field and a getter reading it back.
fn intbox_class() -> ClassModel {
    ClassModel {
        minor_version: 0,
        major_version: 52,
        access_flags: vec![ClassAccess::Public, ClassAccess::Super],
        class_name: chars("IntBox"),
        source_file: Some(chars("IntBox.java")),
        constant_pool: vec![
            PoolEntry::Methodref { class_index: 3, name_and_type_index: 10 },
            PoolEntry::Fieldref { class_index: 4, name_and_type_index: 11 },
            PoolEntry::Class { name_index: 5 },
            PoolEntry::Class { name_index: 6 },
            PoolEntry::Utf8(chars("java/lang/Object")),
            PoolEntry::Utf8(chars("IntBox")),
            PoolEntry::Utf8(chars("<init>")),
            PoolEntry::Utf8(chars("(I)V")),
            PoolEntry::Utf8(chars("value")),
            PoolEntry::NameAndType { name_index: 7, descriptor_index: 12 },
            PoolEntry::NameAndType { name_index: 9, descriptor_index: 13 },
            PoolEntry::Utf8(chars("()V")),
            PoolEntry::Utf8(chars("I")),
            PoolEntry::Utf8(chars("getValue")),
            PoolEntry::Utf8(chars("()I")),
        ],
        methods: vec![
            Method {
                access_flags: vec![MethodAccess::Public],
                name_index: 7,
                descriptor_index: 8,
                code: Some(Code {
                    max_stack: 2,
                    max_locals: 2,
                    code: vec![
                        (0, Instruction::Aload0),
                        (1, Instruction::Invokespecial(1)),
                        (4, Instruction::Aload0),
                        (5, Instruction::Iload1),
                        (6, Instruction::Putfield(2)),
                        (9, Instruction::Return),
                    ],
                    exception_table: Vec::new(),
                }),
            },
            Method {
                access_flags: vec![MethodAccess::Public],
                name_index: 14,
                descriptor_index: 15,
                code: Some(Code {
                    max_stack: 1,
                    max_locals: 1,
                    code: vec![
                        (0, Instruction::Aload0),
                        (1, Instruction::Getfield(2)),
                        (4, Instruction::Ireturn),
                    ],
                    exception_table: Vec::new(),
                }),
            },
        ],
    }
}

fn pool_line(index: usize, entry: String) -> String {
    format!("{:>5} = {}\n", format!("#{}", index), entry)
}

fn instruction_line(offset: usize, text: &str) -> String {
    format!("        {:>3}: {:35}\n", offset, text)
}

#[test]
fn dummy_class_renders_exactly() {
    let rendered = render_class("/tmp/classes/Dummy.class", &dummy_class()).unwrap();

    let mut expected = String::new();
    expected += "Classfile /tmp/classes/Dummy.class\n";
    expected += "  Compiled from: \"Dummy.java\"\n";
    expected += "class Dummy\n";
    expected += "  minor version: 0\n";
    expected += "  major version: 52\n";
    expected += "  flags: ACC_PUBLIC, ACC_SUPER\n";
    expected += "Constant pool:\n";
    expected += &pool_line(1, format!("{:<20}{:<16}// {}", "Methodref", "#2.#3",
        "java/lang/Object.\"<init>\":()V"));
    expected += &pool_line(2, format!("{:<20}{:<16}// {}", "Class", "#4", "java/lang/Object"));
    expected += &pool_line(3, format!("{:<20}{:<16}// {}", "NameAndType", "#5:#6",
        "\"<init>\":()V"));
    expected += &pool_line(4, format!("{:<20}{}", "Utf8", "java/lang/Object"));
    expected += &pool_line(5, format!("{:<20}{}", "Utf8", "<init>"));
    expected += &pool_line(6, format!("{:<20}{}", "Utf8", "()V"));
    expected += &pool_line(7, format!("{:<20}{:<16}// {}", "Class", "#8", "Dummy"));
    expected += &pool_line(8, format!("{:<20}{}", "Utf8", "Dummy"));
    expected += &pool_line(9, format!("{:<20}{}", "Utf8", "Dummy.java"));
    expected += "{\n";
    expected += "  Dummy();\n";
    expected += "    descriptor: ()V\n";
    expected += "    flags: TODO\n";
    expected += "    Code:\n";
    expected += "      stack=1, locals=1, args_size=TODO\n";
    expected += &instruction_line(0, "aload_0");
    expected += &instruction_line(1, "invokespecial #1");
    expected += &instruction_line(4, "return");
    expected += "}\n";
    expected += "SourceFile: \"Dummy.java\"\n";

    assert_eq!(rendered, expected);
}

#[test]
fn compiled_from_and_source_file_repeat_the_same_name() {
    let rendered = render_class("/tmp/classes/IntBox.class", &intbox_class()).unwrap();
    let lines: Vec<&str> = rendered.lines().collect();
    assert_eq!(lines[0], "Classfile /tmp/classes/IntBox.class");
    assert_eq!(lines[1], "  Compiled from: \"IntBox.java\"");
    assert_eq!(lines[lines.len() - 1], "SourceFile: \"IntBox.java\"");
}

#[test]
fn intbox_methods_render_in_declaration_order() {
    let rendered = render_class("/tmp/classes/IntBox.class", &intbox_class()).unwrap();
    let ctor = rendered.find("  IntBox();\n").expect("constructor header");
    let getter = rendered.find("  getValue();\n").expect("getter header");
    assert!(ctor < getter);
    assert!(!rendered.contains("<init>();"));
    assert!(rendered.contains(&instruction_line(6, "putfield #2")));
    assert!(rendered.contains(&instruction_line(1, "getfield #2")));
}

#[test]
fn rendering_twice_is_byte_identical() {
    let model = intbox_class();
    let first = render_class("/tmp/classes/IntBox.class", &model).unwrap();
    let second = render_class("/tmp/classes/IntBox.class", &model).unwrap();
    assert_eq!(first, second);
}

#[test]
fn exception_table_prints_only_when_non_empty() {
    let mut model = dummy_class();
    let rendered = render_class("/x", &model).unwrap();
    assert!(!rendered.contains("Exception table:"));

    // a handler catching java/lang/Object (index 2), and a catch-all
    if let Some(code) = &mut model.methods[0].code {
        code.exception_table = vec![
            ExceptionTableEntry { start_pc: 0, end_pc: 1, handler_pc: 4, catch_type: 2 },
            ExceptionTableEntry { start_pc: 0, end_pc: 4, handler_pc: 4, catch_type: 0 },
        ];
    }
    let rendered = render_class("/x", &model).unwrap();
    let mut expected = String::from("      Exception table:\n");
    expected += "         from    to  target type\n";
    expected += &format!("         {:5} {:5} {:5}   Class {}\n", 0, 1, 4, "java/lang/Object");
    expected += &format!("         {:5} {:5} {:5}   Class {}\n", 0, 4, 4, "any");
    assert!(rendered.contains(&expected));
}

#[test]
fn render_fails_loudly_on_out_of_range_pool_reference() {
    let mut model = dummy_class();
    model.constant_pool[1] = PoolEntry::Class { name_index: 99 };
    assert_eq!(render_class("/x", &model), Err(RenderError::OutOfRangeIndex));
}

#[test]
fn render_fails_on_code_less_method() {
    let mut model = dummy_class();
    model.methods[0].code = None;
    assert_eq!(render_class("/x", &model), Err(RenderError::MissingCode));
}

#[test]
fn class_without_source_file_omits_both_optional_lines() {
    let mut model = dummy_class();
    model.source_file = None;
    let rendered = render_class("/x", &model).unwrap();
    assert!(!rendered.contains("Compiled from"));
    assert!(!rendered.contains("SourceFile"));
    let lines: Vec<&str> = rendered.lines().collect();
    assert_eq!(lines[0], "Classfile /x");
    assert_eq!(lines[1], "class Dummy");
    assert_eq!(lines[lines.len() - 1], "}");
}
