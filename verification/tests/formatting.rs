use javap::flags::{access_flag_to_name, format_access_flags};
use javap::instr::{format_instruction, format_instruction_line, Instruction};
use javap::method::{format_exception_table, format_method};
use javap::model::{ClassAccess, Code, ExceptionTableEntry, Method, PoolEntry, RenderError};
use javap::pool::{format_constant_pool, format_constant_pool_entry, resolve_class,
    resolve_name_and_type, resolve_utf8};

fn chars(s: &str) -> Vec<char> {
    s.chars().collect()
}

fn small_pool() -> Vec<PoolEntry> {
    vec![
        PoolEntry::Methodref { class_index: 2, name_and_type_index: 3 },
        PoolEntry::Class { name_index: 4 },
        PoolEntry::NameAndType { name_index: 5, descriptor_index: 6 },
        PoolEntry::Utf8(chars("java/lang/Object")),
        PoolEntry::Utf8(chars("<init>")),
        PoolEntry::Utf8(chars("()V")),
        PoolEntry::Fieldref { class_index: 2, name_and_type_index: 3 },
        PoolEntry::Str { string_index: 4 },
    ]
}

#[test]
fn flag_names_are_acc_mnemonics() {
    assert_eq!(access_flag_to_name(&ClassAccess::Public), "ACC_PUBLIC");
    assert_eq!(access_flag_to_name(&ClassAccess::Super), "ACC_SUPER");
    assert_eq!(access_flag_to_name(&ClassAccess::Module), "ACC_MODULE");
}

#[test]
fn flags_render_in_canonical_order_not_insertion_order() {
    let reversed = vec![ClassAccess::Final, ClassAccess::Public];
    assert_eq!(format_access_flags(&reversed), chars("ACC_PUBLIC, ACC_FINAL"));
    let in_order = vec![ClassAccess::Public, ClassAccess::Final];
    assert_eq!(format_access_flags(&in_order), chars("ACC_PUBLIC, ACC_FINAL"));
}

#[test]
fn empty_flag_set_renders_empty() {
    assert_eq!(format_access_flags(&Vec::new()), chars(""));
}

#[test]
fn duplicate_flags_render_once() {
    let doubled = vec![ClassAccess::Super, ClassAccess::Public, ClassAccess::Super];
    assert_eq!(format_access_flags(&doubled), chars("ACC_PUBLIC, ACC_SUPER"));
}

#[test]
fn no_operand_instructions_render_mnemonic_alone() {
    assert_eq!(format_instruction(0, &Instruction::Return), chars("return"));
    assert_eq!(format_instruction(7, &Instruction::Aload0), chars("aload_0"));
    assert_eq!(format_instruction(2, &Instruction::IconstM1), chars("iconst_m1"));
}

#[test]
fn local_slot_instructions_render_slot_number() {
    assert_eq!(format_instruction(0, &Instruction::Iload(4)), chars("iload 4"));
    assert_eq!(format_instruction(0, &Instruction::Astore(255)), chars("astore 255"));
}

#[test]
fn pool_reference_instructions_render_hash_index() {
    assert_eq!(format_instruction(1, &Instruction::Invokespecial(1)), chars("invokespecial #1"));
    assert_eq!(format_instruction(0, &Instruction::Getfield(2)), chars("getfield #2"));
    assert_eq!(format_instruction(0, &Instruction::Ldc(18)), chars("ldc #18"));
}

#[test]
fn immediate_instructions_render_signed_literal() {
    assert_eq!(format_instruction(0, &Instruction::Bipush(-1)), chars("bipush -1"));
    assert_eq!(format_instruction(0, &Instruction::Sipush(-32768)), chars("sipush -32768"));
    assert_eq!(format_instruction(0, &Instruction::Bipush(100)), chars("bipush 100"));
}

#[test]
fn branch_instructions_render_absolute_target() {
    // offset + signed delta, never the raw delta
    assert_eq!(format_instruction(10, &Instruction::Goto(-3)), chars("goto 7"));
    assert_eq!(format_instruction(4, &Instruction::Ifeq(6)), chars("ifeq 10"));
    assert_eq!(format_instruction(0, &Instruction::IfIcmpge(13)), chars("if_icmpge 13"));
    assert_eq!(format_instruction(65535, &Instruction::Goto(32767)), chars("goto 98302"));
}

#[test]
fn instruction_line_has_fixed_columns() {
    let line: String = format_instruction_line(0, &Instruction::Aload0).into_iter().collect();
    assert_eq!(line, format!("        {:>3}: {:35}\n", 0, "aload_0"));
    let line: String =
        format_instruction_line(172, &Instruction::Invokespecial(1)).into_iter().collect();
    assert_eq!(line, format!("        {:>3}: {:35}\n", 172, "invokespecial #1"));
}

#[test]
fn resolve_utf8_reads_the_entry() {
    let pool = small_pool();
    assert_eq!(resolve_utf8(&pool, 4), Ok(chars("java/lang/Object")));
    assert_eq!(resolve_utf8(&pool, 5), Ok(chars("<init>")));
}

#[test]
fn resolve_utf8_rejects_bad_indices() {
    let pool = small_pool();
    assert_eq!(resolve_utf8(&pool, 0), Err(RenderError::OutOfRangeIndex));
    assert_eq!(resolve_utf8(&pool, 9), Err(RenderError::OutOfRangeIndex));
    // right range, wrong variant
    assert_eq!(resolve_utf8(&pool, 2), Err(RenderError::OutOfRangeIndex));
}

#[test]
fn resolve_class_follows_the_name_index() {
    let pool = small_pool();
    assert_eq!(resolve_class(&pool, 2), Ok(chars("java/lang/Object")));
    assert_eq!(resolve_class(&pool, 4), Err(RenderError::OutOfRangeIndex));
    assert_eq!(resolve_class(&pool, 0), Err(RenderError::OutOfRangeIndex));
}

#[test]
fn resolve_name_and_type_quotes_the_name() {
    let pool = small_pool();
    assert_eq!(resolve_name_and_type(&pool, 3), Ok(chars("\"<init>\":()V")));
    assert_eq!(resolve_name_and_type(&pool, 1), Err(RenderError::OutOfRangeIndex));
}

#[test]
fn utf8_entry_renders_tag_and_text() {
    let pool = small_pool();
    let text: String =
        format_constant_pool_entry(&pool, &pool[3]).unwrap().into_iter().collect();
    assert_eq!(text, format!("{:<20}{}", "Utf8", "java/lang/Object"));
}

#[test]
fn class_entry_renders_resolved_comment() {
    let pool = small_pool();
    let text: String =
        format_constant_pool_entry(&pool, &pool[1]).unwrap().into_iter().collect();
    assert_eq!(text, format!("{:<20}{:<16}// {}", "Class", "#4", "java/lang/Object"));
}

#[test]
fn string_entry_renders_resolved_comment() {
    let pool = small_pool();
    let text: String =
        format_constant_pool_entry(&pool, &pool[7]).unwrap().into_iter().collect();
    assert_eq!(text, format!("{:<20}{:<16}// {}", "String", "#4", "java/lang/Object"));
}

#[test]
fn ref_entries_render_class_dot_name_and_type_comment() {
    let pool = small_pool();
    let comment = "java/lang/Object.\"<init>\":()V";
    let text: String =
        format_constant_pool_entry(&pool, &pool[0]).unwrap().into_iter().collect();
    assert_eq!(text, format!("{:<20}{:<16}// {}", "Methodref", "#2.#3", comment));
    let text: String =
        format_constant_pool_entry(&pool, &pool[6]).unwrap().into_iter().collect();
    assert_eq!(text, format!("{:<20}{:<16}// {}", "Fieldref", "#2.#3", comment));
}

#[test]
fn name_and_type_entry_renders_quoted_pair() {
    let pool = small_pool();
    let text: String =
        format_constant_pool_entry(&pool, &pool[2]).unwrap().into_iter().collect();
    assert_eq!(text, format!("{:<20}{:<16}// {}", "NameAndType", "#5:#6", "\"<init>\":()V"));
}

#[test]
fn pool_block_lists_entries_one_based() {
    let pool = vec![
        PoolEntry::Utf8(chars("A")),
        PoolEntry::Class { name_index: 1 },
    ];
    let block: String = format_constant_pool(&pool).unwrap().into_iter().collect();
    let mut expected = String::from("Constant pool:\n");
    expected += &format!("{:>5} = {}\n", "#1", format!("{:<20}{}", "Utf8", "A"));
    expected += &format!("{:>5} = {}\n", "#2", format!("{:<20}{:<16}// {}", "Class", "#1", "A"));
    assert_eq!(block, expected);
}

#[test]
fn pool_block_fails_on_dangling_reference() {
    let pool = vec![PoolEntry::Class { name_index: 7 }];
    assert_eq!(format_constant_pool(&pool), Err(RenderError::OutOfRangeIndex));
}

#[test]
fn exception_row_resolves_catch_type() {
    let pool = small_pool();
    let table = vec![ExceptionTableEntry { start_pc: 0, end_pc: 4, handler_pc: 7, catch_type: 2 }];
    let text: String = format_exception_table(&pool, &table).unwrap().into_iter().collect();
    let mut expected = String::from("      Exception table:\n");
    expected += "         from    to  target type\n";
    expected += &format!("         {:5} {:5} {:5}   Class {}\n", 0, 4, 7, "java/lang/Object");
    assert_eq!(text, expected);
}

#[test]
fn catch_type_zero_renders_any_without_lookup() {
    // an empty pool: any lookup at all would fail, the sentinel must not
    let pool: Vec<PoolEntry> = Vec::new();
    let table = vec![ExceptionTableEntry { start_pc: 0, end_pc: 9, handler_pc: 9, catch_type: 0 }];
    let text: String = format_exception_table(&pool, &table).unwrap().into_iter().collect();
    let mut expected = String::from("      Exception table:\n");
    expected += "         from    to  target type\n";
    expected += &format!("         {:5} {:5} {:5}   Class {}\n", 0, 9, 9, "any");
    assert_eq!(text, expected);
}

#[test]
fn exception_table_fails_on_bad_catch_type() {
    let pool = small_pool();
    let table =
        vec![ExceptionTableEntry { start_pc: 0, end_pc: 4, handler_pc: 7, catch_type: 42 }];
    assert_eq!(format_exception_table(&pool, &table), Err(RenderError::OutOfRangeIndex));
}

#[test]
fn method_without_code_is_missing_code() {
    let pool = small_pool();
    let m = Method { access_flags: Vec::new(), name_index: 5, descriptor_index: 6, code: None };
    assert_eq!(format_method(&pool, &chars("Dummy"), &m), Err(RenderError::MissingCode));
}

#[test]
fn method_with_bad_name_index_is_out_of_range() {
    let pool = small_pool();
    let m = Method {
        access_flags: Vec::new(),
        name_index: 100,
        descriptor_index: 6,
        code: Some(Code {
            max_stack: 0,
            max_locals: 0,
            code: Vec::new(),
            exception_table: Vec::new(),
        }),
    };
    assert_eq!(format_method(&pool, &chars("Dummy"), &m), Err(RenderError::OutOfRangeIndex));
}

#[test]
fn constructor_renders_under_class_name() {
    let pool = small_pool();
    let m = Method {
        access_flags: vec![javap::model::MethodAccess::Public],
        name_index: 5,
        descriptor_index: 6,
        code: Some(Code {
            max_stack: 1,
            max_locals: 1,
            code: vec![(0, Instruction::Aload0), (1, Instruction::Invokespecial(1)), (4,
                Instruction::Return)],
            exception_table: Vec::new(),
        }),
    };
    // a class name with package separators still replaces the reserved name
    let text: String =
        format_method(&pool, &chars("com/example/Box"), &m).unwrap().into_iter().collect();
    assert!(text.starts_with("  com/example/Box();\n"));
    assert!(!text.contains("<init>"));
}

#[test]
fn ref_comment_depends_only_on_what_the_indices_resolve_to() {
    // the same references laid out at different pool positions: the
    // resolved comment text must not change
    let pool_a = small_pool();
    let pool_b = vec![
        PoolEntry::Utf8(chars("()V")),
        PoolEntry::Utf8(chars("<init>")),
        PoolEntry::Utf8(chars("java/lang/Object")),
        PoolEntry::Class { name_index: 3 },
        PoolEntry::NameAndType { name_index: 2, descriptor_index: 1 },
    ];
    let entry_a = PoolEntry::Methodref { class_index: 2, name_and_type_index: 3 };
    let entry_b = PoolEntry::Methodref { class_index: 4, name_and_type_index: 5 };
    let text_a: String =
        format_constant_pool_entry(&pool_a, &entry_a).unwrap().into_iter().collect();
    let text_b: String =
        format_constant_pool_entry(&pool_b, &entry_b).unwrap().into_iter().collect();
    let comment_a = text_a.split("// ").nth(1).unwrap().to_string();
    let comment_b = text_b.split("// ").nth(1).unwrap().to_string();
    assert_eq!(comment_a, comment_b);
    assert_eq!(comment_a, "java/lang/Object.\"<init>\":()V");
}
