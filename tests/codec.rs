use instruction_codec::number::{constrain_to_width, smallest_width, LowNumber, LowSize};
use instruction_codec::operand::{Configuration, ConfigurationCode, Operand, SizedDual, SizedDynamic};
use instruction_codec::operation::basic::{Basic, Code as BasicCode, LEN as BASIC_LEN};
use instruction_codec::operation::floating::{Code as FloatingCode, Floating, LEN as FLOATING_LEN};
use instruction_codec::operation::{Code, Encoded, Extension, Operation, OperationDecodeError};

fn dual(size: LowSize) -> SizedDual {
    SizedDual {
        size,
        first: Operand { mode: 3, data: 0x1234 },
        second: Operand { mode: 7, data: 99 },
    }
}

fn all_codes(extension: Extension) -> Vec<Code> {
    (0..extension.len())
        .map(|n| Code::from_extension_and_operation(extension, n).unwrap())
        .collect()
}

/// Builds an instance of `code` whatever shape it declares.
fn instance(code: Code, size: LowSize) -> Operation {
    match code.get_code_configuration() {
        Some(_) => Operation::from_sized_dual(code, dual(size)).unwrap(),
        None => Operation::from_shapeless(code).unwrap(),
    }
}

#[test]
fn smallest_width_byte_up_to_255() {
    assert_eq!(smallest_width(0), LowNumber::Byte(0));
    assert_eq!(smallest_width(21), LowNumber::Byte(21));
    assert_eq!(smallest_width(255), LowNumber::Byte(255));
}

#[test]
fn smallest_width_word_from_256() {
    assert_eq!(smallest_width(256), LowNumber::Word(256));
    assert_eq!(smallest_width(u16::MAX), LowNumber::Word(u16::MAX));
}

#[test]
fn constrain_300_to_byte_aliases_44() {
    assert_eq!(constrain_to_width(300, &LowSize::Byte), LowNumber::Byte(44));
    assert_eq!(constrain_to_width(300, &LowSize::Word), LowNumber::Word(300));
    assert_eq!(constrain_to_width(20, &LowSize::Byte), LowNumber::Byte(20));
}

#[test]
fn low_number_value_and_size() {
    assert_eq!(LowNumber::Byte(44).to_u16(), 44);
    assert_eq!(LowNumber::Word(300).to_u16(), 300);
    assert_eq!(LowNumber::Byte(1).get_size(), LowSize::Byte);
    assert_eq!(LowNumber::Word(1).get_size(), LowSize::Word);
}

#[test]
fn basic_scenario_resolution() {
    assert_eq!(BASIC_LEN, 21);
    assert_eq!(
        Code::from_extension_and_operation(Extension::Basic, 0),
        Some(Code::Basic(BasicCode::Add))
    );
    assert_eq!(
        Code::from_extension_and_operation(Extension::Basic, 20),
        Some(Code::Basic(BasicCode::JumpIfNegative))
    );
    assert_eq!(Code::from_extension_and_operation(Extension::Basic, 21), None);
    assert_eq!(Code::from_extension_and_operation(Extension::Basic, u16::MAX), None);
}

#[test]
fn basic_scenario_codes_fit_in_a_byte() {
    for code in all_codes(Extension::Basic) {
        let op = instance(code, LowSize::Word);
        assert!(matches!(op.to_smallest_code(), LowNumber::Byte(_)));
    }
}

#[test]
fn basic_scenario_shapes() {
    assert_eq!(BasicCode::AppendStackRegisters.get_code_configuration(), None);
    assert_eq!(BasicCode::DetachStackRegisters.get_code_configuration(), None);
    assert_eq!(BasicCode::Add.get_code_configuration(), Some(ConfigurationCode::Dual));
    assert_eq!(BasicCode::Increment.get_code_configuration(), Some(ConfigurationCode::Dynamic));
    assert_eq!(
        Code::Basic(BasicCode::Copy).get_code_configuration(),
        Some(ConfigurationCode::Dual)
    );
}

#[test]
fn range_validation_each_extension() {
    for extension in [Extension::Basic, Extension::Floating] {
        let n = extension.len();
        assert!(Code::from_extension_and_operation(extension, n - 1).is_some());
        assert!(Code::from_extension_and_operation(extension, n).is_none());
    }
    assert_eq!(FLOATING_LEN, 6);
    assert_eq!(Extension::Floating.len(), 6);
    assert_eq!(Extension::Basic.len(), 21);
}

#[test]
fn numbers_are_dense_and_in_order() {
    for extension in [Extension::Basic, Extension::Floating] {
        for (i, code) in all_codes(extension).into_iter().enumerate() {
            let op = instance(code, LowSize::Byte);
            assert_eq!(op.to_code() as usize, i);
            assert_eq!(op.get_code(), code);
        }
    }
}

#[test]
fn same_number_differs_across_extensions() {
    let b = Code::from_extension_and_operation(Extension::Basic, 4).unwrap();
    let f = Code::from_extension_and_operation(Extension::Floating, 4).unwrap();
    assert_eq!(b, Code::Basic(BasicCode::Multiply));
    assert_eq!(f, Code::Floating(FloatingCode::Negate));
    assert_eq!(b.get_extension(), Extension::Basic);
    assert_eq!(f.get_extension(), Extension::Floating);
}

#[test]
fn from_sized_dual_keeps_dual_payload() {
    let d = dual(LowSize::Word);
    let op = Operation::from_sized_dual(Code::Basic(BasicCode::Add), d).unwrap();
    assert_eq!(op, Operation::Basic(Basic::Add(d)));
    assert_eq!(op.get_configuration(), Some(Configuration::Dual(d)));
}

#[test]
fn from_sized_dual_narrows_for_dynamic() {
    let d = dual(LowSize::Byte);
    let op = Operation::from_sized_dual(Code::Basic(BasicCode::Increment), d).unwrap();
    let expected = SizedDynamic { size: LowSize::Byte, operand: Operand { mode: 3, data: 0x1234 } };
    assert_eq!(op, Operation::Basic(Basic::Increment(expected)));
    assert_eq!(op.get_configuration(), Some(Configuration::Dynamic(expected)));
    let f = Operation::from_sized_dual(Code::Floating(FloatingCode::Absolute), d).unwrap();
    assert_eq!(f, Operation::Floating(Floating::Absolute(expected)));
}

#[test]
fn from_sized_dual_refuses_shapeless() {
    let d = dual(LowSize::Byte);
    assert_eq!(Operation::from_sized_dual(Code::Basic(BasicCode::AppendStackRegisters), d), None);
    assert_eq!(Operation::from_sized_dual(Code::Basic(BasicCode::DetachStackRegisters), d), None);
}

#[test]
fn from_shapeless_only_for_shapeless() {
    assert_eq!(
        Operation::from_shapeless(Code::Basic(BasicCode::AppendStackRegisters)),
        Some(Operation::Basic(Basic::AppendStackRegisters))
    );
    assert_eq!(Operation::from_shapeless(Code::Basic(BasicCode::Add)), None);
    assert_eq!(Operation::from_shapeless(Code::Floating(FloatingCode::Add)), None);
}

#[test]
fn shape_agreement_for_every_opcode() {
    for extension in [Extension::Basic, Extension::Floating] {
        for code in all_codes(extension) {
            let op = instance(code, LowSize::Byte);
            let shape = op.get_configuration().map(|c| c.get_shape());
            assert_eq!(shape, code.get_code_configuration());
        }
    }
}

#[test]
fn extension_recovery_for_every_opcode() {
    for extension in [Extension::Basic, Extension::Floating] {
        for code in all_codes(extension) {
            let op = instance(code, LowSize::Word);
            assert_eq!(op.extension_of(), extension);
            assert_eq!(Extension::from(op), extension);
        }
    }
}

#[test]
fn round_trip_for_every_opcode() {
    for extension in [Extension::Basic, Extension::Floating] {
        for code in all_codes(extension) {
            for size in [LowSize::Byte, LowSize::Word] {
                let op = instance(code, size);
                let encoded = op.encode();
                let back = Operation::decode(extension, &encoded.code, encoded.configuration);
                assert_eq!(back, Ok(op));
            }
        }
    }
}

#[test]
fn encode_gives_smallest_code_and_payload() {
    let d = dual(LowSize::Byte);
    let op = Operation::from_sized_dual(Code::Basic(BasicCode::Copy), d).unwrap();
    assert_eq!(
        op.encode(),
        Encoded { code: LowNumber::Byte(6), configuration: Some(Configuration::Dual(d)) }
    );
    let shapeless = Operation::Basic(Basic::DetachStackRegisters);
    assert_eq!(shapeless.encode(), Encoded { code: LowNumber::Byte(10), configuration: None });
}

#[test]
fn decode_accepts_word_width_code() {
    let op = Operation::decode(Extension::Basic, &LowNumber::Word(8), None);
    assert_eq!(op, Ok(Operation::Basic(Basic::AppendStackRegisters)));
}

#[test]
fn decode_unknown_opcode() {
    assert_eq!(
        Operation::decode(Extension::Basic, &LowNumber::Byte(21), None),
        Err(OperationDecodeError::UnknownOpcode)
    );
    assert_eq!(
        Operation::decode(Extension::Floating, &LowNumber::Word(300), None),
        Err(OperationDecodeError::UnknownOpcode)
    );
}

#[test]
fn decode_shape_mismatch() {
    let d = dual(LowSize::Byte);
    let x = d.to_dynamic();
    assert_eq!(
        Operation::decode(Extension::Basic, &LowNumber::Byte(0), None),
        Err(OperationDecodeError::ShapeMismatch)
    );
    assert_eq!(
        Operation::decode(Extension::Basic, &LowNumber::Byte(0), Some(Configuration::Dynamic(x))),
        Err(OperationDecodeError::ShapeMismatch)
    );
    assert_eq!(
        Operation::decode(Extension::Basic, &LowNumber::Byte(15), Some(Configuration::Dual(d))),
        Err(OperationDecodeError::ShapeMismatch)
    );
    assert_eq!(
        Operation::decode(Extension::Basic, &LowNumber::Byte(8), Some(Configuration::Dual(d))),
        Err(OperationDecodeError::ShapeMismatch)
    );
}

#[test]
fn force_code_constrained_keeps_small_codes() {
    let op = Operation::from_sized_dual(Code::Basic(BasicCode::JumpIfNegative), dual(LowSize::Byte)).unwrap();
    assert_eq!(op.force_code_constrained(&LowSize::Byte), LowNumber::Byte(20));
    assert_eq!(op.force_code_constrained(&LowSize::Word), LowNumber::Word(20));
    assert_eq!(op.to_smallest_code(), LowNumber::Byte(20));
}

#[test]
fn narrow_and_widen_payloads() {
    let d = dual(LowSize::Word);
    let x = d.to_dynamic();
    assert_eq!(x, SizedDynamic { size: LowSize::Word, operand: Operand { mode: 3, data: 0x1234 } });
    let w = x.to_dual();
    assert_eq!(w.first, x.operand);
    assert_eq!(w.second, x.operand);
    assert_eq!(w.to_dynamic(), x);
    assert_eq!(Configuration::Dual(d).get_shape(), ConfigurationCode::Dual);
    assert_eq!(Configuration::Dynamic(x).get_shape(), ConfigurationCode::Dynamic);
}

#[test]
fn default_extension_is_basic() {
    assert_eq!(Extension::default(), Extension::Basic);
}
