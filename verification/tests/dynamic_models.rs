use marlin_verilator::dynamic::{
    model_symbols, DynamicVerilatedModel, DynamicVerilatedModelError, PinArgument, ReadReply,
    SymbolLookup, VerilatorValue,
};
use marlin_verilator::port::PortClass;
use marlin_verilator::PortDirection;

fn model() -> DynamicVerilatedModel {
    DynamicVerilatedModel::new(
        "main",
        &[
            ("clk", 0, 0, PortDirection::Input),
            ("medium_input", 31, 0, PortDirection::Input),
            ("medium_output", 31, 0, PortDirection::Output),
            ("wide_input", 64, 0, PortDirection::Input),
            ("wide_output", 255, 128, PortDirection::Output),
            ("byte_output", 7, 0, PortDirection::Output),
            ("short_output", 8, 0, PortDirection::Output),
            ("quad_output", 32, 0, PortDirection::Output),
            ("bus", 15, 8, PortDirection::Inout),
            ("wide_bus", 95, 0, PortDirection::Inout),
        ],
    )
}

#[test]
fn read_calls_follow_the_declaration() {
    let model = model();
    let expected = [
        ("medium_output", PortClass::Int),
        ("byte_output", PortClass::Byte),
        ("short_output", PortClass::Short),
        ("quad_output", PortClass::Quad),
        ("bus", PortClass::Byte),
    ];
    for (port, class) in expected {
        let call = model.read_call(port).unwrap();
        assert_eq!(call.symbol, format!("ffi_Vmain_read_{port}"));
        assert_eq!(call.class, class);
    }
    let wide = model.read_call("wide_output").unwrap();
    assert_eq!(wide.class, PortClass::Wide);
    assert_eq!(wide.words, 4);
}

#[test]
fn reading_gives_the_value_of_the_port() {
    let model = model();
    assert_eq!(
        model.read("byte_output", ReadReply::CData(200)).unwrap(),
        VerilatorValue::CData(200)
    );
    assert_eq!(
        model.read("short_output", ReadReply::SData(300)).unwrap(),
        VerilatorValue::SData(300)
    );
    assert_eq!(
        model.read("medium_output", ReadReply::IData(u32::MAX)).unwrap(),
        VerilatorValue::IData(u32::MAX)
    );
    assert_eq!(
        model.read("quad_output", ReadReply::QData(1 << 32)).unwrap(),
        VerilatorValue::QData(1 << 32)
    );
    let words = vec![u32::MAX, u32::MAX, 1, 2];
    assert_eq!(
        model.read("wide_output", ReadReply::Words(words)).unwrap(),
        [u32::MAX, u32::MAX, 1, 2].into()
    );
}

#[test]
fn unknown_ports_cannot_be_read() {
    let error = model().read_call("nowhere").unwrap_err();
    assert!(matches!(error, DynamicVerilatedModelError::NoSuchPort { source: None, .. }));
    assert_eq!(
        error.message(),
        "Port nowhere not found on verilated module main: did you forget to specify it in the runtime `create_dyn_model` constructor?: None"
    );
    let error = model().read("nowhere", ReadReply::CData(0)).unwrap_err();
    assert!(matches!(error, DynamicVerilatedModelError::NoSuchPort { source: None, .. }));
}

#[test]
fn missing_symbols_are_reported() {
    let error = model()
        .read("byte_output", ReadReply::Missing("undefined symbol".to_owned()))
        .unwrap_err();
    assert_eq!(
        error.message(),
        "Port byte_output not found on verilated module main: did you forget to specify it in the runtime `create_dyn_model` constructor?: Some(undefined symbol)"
    );
    let error = model()
        .pin(
            "clk",
            &VerilatorValue::CData(1),
            SymbolLookup::Missing("undefined symbol".to_owned()),
        )
        .unwrap_err();
    assert_eq!(
        error.message(),
        "Port clk not found on verilated module main: did you forget to specify it in the runtime `create_dyn_model` constructor?: Some(undefined symbol)"
    );
}

#[test]
fn inputs_cannot_be_read() {
    let error = model().read_call("medium_input").unwrap_err();
    assert!(matches!(
        error,
        DynamicVerilatedModelError::InvalidPortDirection {
            direction: PortDirection::Input,
            attempted_direction: PortDirection::Output,
            ..
        }
    ));
    assert_eq!(
        error.message(),
        "Port medium_input on verilated module main is an input port, but was used as an output port"
    );
}

#[test]
fn outputs_cannot_be_pinned() {
    // the generated file has no function that writes an output
    for lookup in [SymbolLookup::Missing("undefined symbol".to_owned()), SymbolLookup::Found] {
        let error =
            model().pin("medium_output", &VerilatorValue::IData(1), lookup).unwrap_err();
        assert!(matches!(
            error,
            DynamicVerilatedModelError::InvalidPortDirection {
                direction: PortDirection::Output,
                attempted_direction: PortDirection::Input,
                ..
            }
        ));
        assert_eq!(
            error.message(),
            "Port medium_output on verilated module main is an output port, but was used as an input port"
        );
    }
}

#[test]
fn undeclared_ports_cannot_be_pinned() {
    let missing = || SymbolLookup::Missing("undefined symbol".to_owned());
    let error = model().pin("nowhere", &VerilatorValue::CData(1), missing()).unwrap_err();
    assert_eq!(
        error.message(),
        "Port nowhere not found on verilated module main: did you forget to specify it in the runtime `create_dyn_model` constructor?: Some(undefined symbol)"
    );
}

#[test]
fn a_missing_symbol_is_reported_before_the_width() {
    let missing = || SymbolLookup::Missing("undefined symbol".to_owned());
    for value in [VerilatorValue::CData(1), VerilatorValue::IData(1)] {
        let error = model().pin("medium_input", &value, missing()).unwrap_err();
        assert_eq!(
            error.message(),
            "Port medium_input not found on verilated module main: did you forget to specify it in the runtime `create_dyn_model` constructor?: Some(undefined symbol)"
        );
    }
    // an output has no such symbol, and is refused for its width or its direction
    let error = model().pin("medium_output", &VerilatorValue::CData(1), missing()).unwrap_err();
    assert!(matches!(error, DynamicVerilatedModelError::InvalidPortWidth { .. }));
}

#[test]
fn reading_again_gives_the_same() {
    let model = model();
    let read = |port: &str| match port {
        "medium_output" => model.read(port, ReadReply::IData(9)),
        "wide_output" => model.read(port, ReadReply::Words(vec![1, 2, 3, 4])),
        _ => model.read(port, ReadReply::CData(5)),
    };
    let first = read("medium_output").unwrap();
    let wide = read("wide_output").unwrap();
    assert!(read("nowhere").is_err());
    assert!(read("medium_input").is_err());
    assert_eq!(read("medium_output").unwrap(), first);
    assert_eq!(read("wide_output").unwrap(), wide);
}

#[test]
fn pinning_hands_over_the_type_of_the_port() {
    let model = DynamicVerilatedModel::new(
        "main",
        &[
            ("byte", 7, 0, PortDirection::Input),
            ("short", 8, 0, PortDirection::Input),
            ("int", 31, 0, PortDirection::Input),
            ("quad", 63, 0, PortDirection::Input),
            ("wide", 64, 0, PortDirection::Input),
        ],
    );
    let pin = |port: &str, value: &VerilatorValue<'static>| {
        model.pin(port, value, SymbolLookup::Found).unwrap()
    };
    assert_eq!(pin("byte", &VerilatorValue::CData(200)), PinArgument::CData(200));
    assert_eq!(pin("byte", &VerilatorValue::QData(0x1_23)), PinArgument::CData(0x23));
    assert_eq!(pin("short", &VerilatorValue::IData(0x1_2345)), PinArgument::SData(0x2345));
    assert_eq!(pin("int", &VerilatorValue::QData(0x1_0000_0007)), PinArgument::IData(7));
    assert_eq!(pin("quad", &VerilatorValue::QData(u64::MAX)), PinArgument::QData(u64::MAX));
    let words: &'static [u32] = &[0xdead_beef, 1, 2];
    assert_eq!(pin("byte", &VerilatorValue::WDataInP(words)), PinArgument::CData(0xef));
    assert_eq!(pin("int", &VerilatorValue::WDataInP(&words[..1])), PinArgument::IData(0xdead_beef));
    assert_eq!(
        pin("quad", &VerilatorValue::WDataInP(words)),
        PinArgument::QData(0x1_dead_beef)
    );
    assert_eq!(pin("wide", &VerilatorValue::WDataInP(words)), PinArgument::Words(words));
}

#[test]
fn pinning_takes_values_that_are_wide_enough() {
    let model = model();
    assert_eq!(model.pin_symbol("clk"), "ffi_Vmain_pin_clk");
    assert!(model.pin("clk", &VerilatorValue::CData(1), SymbolLookup::Found).is_ok());
    assert!(model.pin("clk", &VerilatorValue::QData(1), SymbolLookup::Found).is_ok());
    assert!(model.pin("medium_input", &VerilatorValue::IData(1), SymbolLookup::Found).is_ok());
    let words = [u32::MAX, u32::MAX, 1];
    assert!(model
        .pin("wide_input", &VerilatorValue::WDataInP(&words), SymbolLookup::Found)
        .is_ok());
    assert!(model.pin("bus", &VerilatorValue::CData(1), SymbolLookup::Found).is_ok());
}

#[test]
fn pinning_rejects_values_that_are_too_narrow() {
    let model = model();
    let range = |value: &VerilatorValue, port: &str| {
        match model.pin(port, value, SymbolLookup::Found).unwrap_err() {
            DynamicVerilatedModelError::InvalidPortWidth {
                width,
                attempted_lower,
                attempted_higher,
                ..
            } => (width, attempted_lower, attempted_higher),
            _ => unreachable!(),
        }
    };
    assert_eq!(range(&VerilatorValue::CData(1), "medium_input"), (32, 0, 8));
    assert_eq!(range(&VerilatorValue::SData(1), "medium_input"), (32, 9, 16));
    assert_eq!(range(&VerilatorValue::IData(1), "wide_input"), (65, 17, 32));
    assert_eq!(range(&VerilatorValue::QData(1), "wide_input"), (65, 33, 64));
    assert_eq!(range(&VerilatorValue::WDataInP(&[1, 2]), "wide_input"), (65, 65, 64));
    // the width is looked at before the direction
    assert_eq!(range(&VerilatorValue::CData(1), "medium_output"), (32, 0, 8));
    let error = model
        .pin("medium_input", &VerilatorValue::SData(1), SymbolLookup::Found)
        .unwrap_err();
    assert_eq!(
        error.message(),
        "Port medium_input on verilated module main has width 32, but used as if it was in the 9 to 16 width range"
    );
    let error = model
        .pin("nowhere", &VerilatorValue::SData(1), SymbolLookup::Found)
        .unwrap_err();
    assert!(matches!(error, DynamicVerilatedModelError::NoSuchPort { source: None, .. }));
}

#[test]
fn what_was_read_can_be_pinned_again() {
    let model = model();
    let value = model.read("bus", ReadReply::CData(77)).unwrap();
    assert_eq!(
        model.pin("bus", &value, SymbolLookup::Found).unwrap(),
        PinArgument::CData(77)
    );
    let wide = model.read("wide_bus", ReadReply::Words(vec![1, 2, 3])).unwrap();
    let VerilatorValue::WDataOutP(words) = wide else { unreachable!() };
    assert_eq!(
        model.pin("wide_bus", &VerilatorValue::WDataInP(&words), SymbolLookup::Found).unwrap(),
        PinArgument::Words(&[1, 2, 3])
    );
}

#[test]
fn the_last_port_of_a_name_counts() {
    let model = DynamicVerilatedModel::new(
        "main",
        &[
            ("a", 7, 0, PortDirection::Input),
            ("b", 7, 0, PortDirection::Output),
            ("a", 31, 0, PortDirection::Output),
        ],
    );
    assert_eq!(model.read_call("a").unwrap().class, PortClass::Int);
    assert_eq!(model.read_call("b").unwrap().class, PortClass::Byte);
}

#[test]
fn models_are_made_of_three_functions() {
    let symbols = model_symbols("main");
    assert_eq!(symbols.constructor.symbol, "ffi_new_Vmain");
    assert_eq!(symbols.constructor.failure, "Failed to load constructor for module main");
    assert_eq!(symbols.destructor.symbol, "ffi_delete_Vmain");
    assert_eq!(symbols.destructor.failure, "Failed to load destructor for module main");
    assert_eq!(symbols.evaluator.symbol, "ffi_Vmain_eval");
    assert_eq!(symbols.evaluator.failure, "Failed to load evalulator for module main");
}
