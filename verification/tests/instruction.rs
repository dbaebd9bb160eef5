use sumatra_parser::error::ParseError;
use sumatra_parser::instruction::{ArrayType, Instruction, WideInstruction};

#[test]
fn decodes_simple_instructions() {
    // iconst_0, istore_1, return
    let code = [3u8, 60, 177];
    let instrs = Instruction::from_bytes(&code).unwrap();
    assert_eq!(instrs, vec![Instruction::IConst0, Instruction::IStore1, Instruction::Return]);
}

#[test]
fn decodes_operands() {
    // bipush -2, sipush 300, ldc 7, getstatic #513, invokeinterface #2 1 0, multianewarray #3 2
    let code = [16u8, 0xFE, 17, 1, 44, 18, 7, 178, 2, 1, 185, 0, 2, 1, 0, 197, 0, 3, 2];
    let instrs = Instruction::from_bytes(&code).unwrap();
    assert_eq!(
        instrs,
        vec![
            Instruction::BiPush(-2),
            Instruction::SiPush(300),
            Instruction::Ldc(7),
            Instruction::GetStatic(513),
            Instruction::InvokeInterface(2, 1, 0),
            Instruction::MultiaNewArray(3, 2),
        ]
    );
}

#[test]
fn branch_targets_become_instruction_indices() {
    // 0: iconst_0, 1: ifeq +4 (to byte 5), 4: return, 5: goto -5 (to byte 0)
    let code = [3u8, 153, 0, 4, 177, 167, 0xFF, 0xFB];
    let instrs = Instruction::from_bytes(&code).unwrap();
    assert_eq!(
        instrs,
        vec![Instruction::IConst0, Instruction::Ifeq(3), Instruction::Return, Instruction::GoTo(0)]
    );
}

#[test]
fn branch_into_an_instruction_gives_index_zero() {
    // 0: nop, 1: sipush 5 (three bytes), 4: goto -2 (to byte 2, inside sipush)
    let code = [0u8, 17, 0, 5, 167, 0xFF, 0xFE];
    let instrs = Instruction::from_bytes(&code).unwrap();
    assert_eq!(instrs[2], Instruction::GoTo(0));
}

#[test]
fn branch_out_of_code_is_invalid_jump() {
    let code = [167u8, 0, 10];
    assert_eq!(Instruction::from_bytes(&code), Err(ParseError::InvalidJump));
    let back = [0u8, 167, 0xFF, 0x00];
    assert_eq!(Instruction::from_bytes(&back), Err(ParseError::InvalidJump));
}

#[test]
fn unknown_opcode_is_invalid_instruction() {
    let code = [202u8];
    assert_eq!(Instruction::from_bytes(&code), Err(ParseError::InvalidInstruction));
}

#[test]
fn truncated_operand_is_unexpected_eof() {
    let code = [17u8, 0];
    assert_eq!(Instruction::from_bytes(&code), Err(ParseError::UnexpectedEof));
}

#[test]
fn decode_error_comes_before_jump_error() {
    // goto +100 is out of range, but the later truncated sipush is reported.
    let code = [167u8, 0, 100, 17];
    assert_eq!(Instruction::from_bytes(&code), Err(ParseError::UnexpectedEof));
}

#[test]
fn newarray_tags() {
    let code = [188u8, 10, 188, 4];
    assert_eq!(
        Instruction::from_bytes(&code).unwrap(),
        vec![Instruction::NewArray(ArrayType::Int), Instruction::NewArray(ArrayType::Boolean)]
    );
    assert_eq!(Instruction::from_bytes(&[188u8, 3]), Err(ParseError::InvalidArrayType));
}

#[test]
fn lookupswitch_is_padded() {
    // 0: nop, 1: lookupswitch, pad to 4, default 16, 1 pair (5 -> 20)
    let code = [
        0u8, 171, 0, 0, 0, 0, 0, 16, 0, 0, 0, 1, 0, 0, 0, 5, 0, 0, 0, 20,
    ];
    let instrs = Instruction::from_bytes(&code).unwrap();
    assert_eq!(
        instrs,
        vec![
            Instruction::Nop,
            Instruction::LookUpSwitch { default_index: 16, jump_table: vec![(5, 20)] },
        ]
    );
}

#[test]
fn lookupswitch_negative_count_is_invalid() {
    let code = [171u8, 0, 0, 0, 0, 0, 0, 0, 0xFF, 0xFF, 0xFF, 0xFF];
    assert_eq!(Instruction::from_bytes(&code), Err(ParseError::InvalidSwitch));
}

#[test]
fn tableswitch_offsets() {
    // 0: tableswitch, pad 3, default 7, low 1, high 2, offsets 9 and 11
    let code = [
        170u8, 0, 0, 0, 0, 0, 0, 7, 0, 0, 0, 1, 0, 0, 0, 2, 0, 0, 0, 9, 0, 0, 0, 11,
    ];
    let instrs = Instruction::from_bytes(&code).unwrap();
    assert_eq!(
        instrs,
        vec![Instruction::TableSwitch { default_index: 7, low: 1, high: 2, jump_offsets: vec![9, 11] }]
    );
}

#[test]
fn tableswitch_low_above_high_is_invalid() {
    let code = [170u8, 0, 0, 0, 0, 0, 0, 7, 0, 0, 0, 2, 0, 0, 0, 1];
    assert_eq!(Instruction::from_bytes(&code), Err(ParseError::InvalidSwitch));
}

#[test]
fn wide_instructions() {
    // wide iload 300, wide iinc 1 2
    let code = [196u8, 21, 1, 44, 196, 132, 0, 1, 0, 2];
    assert_eq!(
        Instruction::from_bytes(&code).unwrap(),
        vec![
            Instruction::Wide(WideInstruction::ILoad(300)),
            Instruction::Wide(WideInstruction::Iinc(1, 2)),
        ]
    );
    // wide nop is not a wide instruction
    assert_eq!(Instruction::from_bytes(&[196u8, 0, 0, 0]), Err(ParseError::InvalidInstruction));
}

#[test]
fn try_from_gives_zero_operands() {
    assert_eq!(Instruction::try_from(25), Ok(Instruction::ALoad(0)));
    assert_eq!(Instruction::try_from(12), Ok(Instruction::FConst1));
    assert_eq!(Instruction::try_from(13), Ok(Instruction::FConst2));
    assert_eq!(Instruction::try_from(102), Ok(Instruction::FSub));
    assert_eq!(Instruction::try_from(134), Ok(Instruction::I2F));
    assert_eq!(Instruction::try_from(185), Ok(Instruction::InvokeInterface(0, 0, 0)));
    assert_eq!(Instruction::try_from(187), Ok(Instruction::New(0)));
    assert_eq!(Instruction::try_from(201), Ok(Instruction::JsrW(0)));
    assert_eq!(Instruction::try_from(202), Err(ParseError::InvalidInstruction));
    assert_eq!(Instruction::try_from(255), Err(ParseError::InvalidInstruction));
    assert_eq!(Instruction::try_from(153), Ok(Instruction::Ifeq(0)));
}

#[test]
fn wide_try_from() {
    assert_eq!(WideInstruction::try_from(Instruction::IStore(9)), Ok(WideInstruction::IStore(0)));
    assert_eq!(WideInstruction::try_from(Instruction::Nop), Err(ParseError::InvalidInstruction));
}

#[test]
fn array_type_try_from() {
    assert_eq!(ArrayType::try_from(11), Ok(ArrayType::Long));
    assert_eq!(ArrayType::try_from(12), Err(ParseError::InvalidArrayType));
}

#[test]
fn goto_w_takes_a_four_byte_offset() {
    // 0: goto_w +6 (to byte 6), 5: nop, 6: return
    let code = [200u8, 0, 0, 0, 6, 0, 177];
    assert_eq!(
        Instruction::from_bytes(&code).unwrap(),
        vec![Instruction::GoToW(2), Instruction::Nop, Instruction::Return]
    );
    // 0: nop, 1: goto_w -1 (to byte 0)
    let back = [0u8, 200, 0xFF, 0xFF, 0xFF, 0xFF];
    assert_eq!(Instruction::from_bytes(&back).unwrap(), vec![Instruction::Nop, Instruction::GoToW(0)]);
    // goto_w -1 at byte 0 leads before the code
    assert_eq!(Instruction::from_bytes(&[200u8, 0xFF, 0xFF, 0xFF, 0xFF]), Err(ParseError::InvalidJump));
}

#[test]
fn branch_offsets_are_not_truncated_to_sixteen_bits() {
    // 40000 nops, then goto -40000 (byte 40000 to byte 0) via goto_w
    let mut code = vec![0u8; 40000];
    code.extend_from_slice(&[200, 0xFF, 0xFF, 0x63, 0xC0]);
    let instrs = Instruction::from_bytes(&code).unwrap();
    assert_eq!(instrs[40000], Instruction::GoToW(0));
}
