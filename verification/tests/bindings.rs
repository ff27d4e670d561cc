use marlin_verilator::dpi::{bind_dpi_if_needed, dpi_source, DpiSignature};
use marlin_verilator::ffi::build_ffi;
use marlin_verilator::ffi_names;
use marlin_verilator::port::{port_class, PortClass};
use marlin_verilator::{PortDirection, Waveform};

#[test]
fn symbols_are_named_after_the_module() {
    assert_eq!(ffi_names::new_top("main"), "ffi_new_Vmain");
    assert_eq!(ffi_names::delete_top("main"), "ffi_delete_Vmain");
    assert_eq!(ffi_names::top_eval("main"), "ffi_Vmain_eval");
    assert_eq!(ffi_names::pin_port("main", "clk"), "ffi_Vmain_pin_clk");
    assert_eq!(ffi_names::read_port("main", "out"), "ffi_Vmain_read_out");
    assert_ne!(ffi_names::pin_port("main", "a"), ffi_names::pin_port("main", "b"));
    assert_ne!(ffi_names::pin_port("main", "a"), ffi_names::read_port("main", "a"));
}

#[test]
fn ports_are_carried_by_the_narrowest_type() {
    let expected = [
        (1, PortClass::Byte),
        (8, PortClass::Byte),
        (9, PortClass::Short),
        (16, PortClass::Short),
        (17, PortClass::Int),
        (32, PortClass::Int),
        (33, PortClass::Quad),
        (64, PortClass::Quad),
        (65, PortClass::Wide),
        (1000, PortClass::Wide),
    ];
    for (width, class) in expected {
        assert_eq!(port_class(width), class);
    }
}

fn model_part(top_module: &str) -> String {
    format!(
        r#"
#include <cstring> // std::memcpy
#include "verilated.h"
#include "V{top_module}.h"

extern "C" {{
    void* ffi_new_V{top_module}() {{
        return new V{top_module}{{}};
    }}

    
    void ffi_V{top_module}_eval(V{top_module}* top) {{
        top->eval();
    }}

    void ffi_delete_V{top_module}(V{top_module}* top) {{
        delete top;
    }}

"#
    )
}

#[test]
fn a_module_without_ports_has_the_model_functions() {
    assert_eq!(
        build_ffi("main", &[], None),
        format!("{}}} // extern \"C\"\n", model_part("main"))
    );
}

#[test]
fn every_port_has_the_functions_of_its_direction() {
    let ports = [
        ("medium_input", 31, 0, PortDirection::Input),
        ("medium_output", 31, 0, PortDirection::Output),
        ("bus", 11, 4, PortDirection::Inout),
    ];
    let expected = model_part("main")
        + r#"
    void ffi_Vmain_pin_medium_input(Vmain* top, VL_IN(new_value, 31, 0)) {
        top->medium_input = new_value;
    }
            
"# + r#"
    VL_OUT(/* return value */, 31, 0) ffi_Vmain_read_medium_output(Vmain* top) {
        return top->medium_output;
    }
            
"# + r#"
    void ffi_Vmain_pin_bus(Vmain* top, VL_INOUT8(new_value, 11, 4)) {
        top->bus = new_value;
    }
            
"# + r#"
    VL_INOUT8(/* return value */, 11, 4) ffi_Vmain_read_bus(Vmain* top) {
        return top->bus;
    }
            
} // extern "C"
"#;
    assert_eq!(build_ffi("main", &ports, None), expected);
}

#[test]
fn types_follow_the_width() {
    let ports = [
        ("a", 7, 0, PortDirection::Input),
        ("b", 8, 0, PortDirection::Input),
        ("c", 16, 0, PortDirection::Input),
        ("d", 32, 0, PortDirection::Input),
        ("e", 63, 0, PortDirection::Input),
    ];
    let code = build_ffi("m", &ports, None);
    assert!(code.contains("VL_IN8(new_value, 7, 0)"));
    assert!(code.contains("VL_IN16(new_value, 8, 0)"));
    assert!(code.contains("VL_IN(new_value, 16, 0)"));
    assert!(code.contains("VL_IN64(new_value, 32, 0)"));
    assert!(code.contains("VL_IN64(new_value, 63, 0)"));
}

#[test]
fn wide_ports_are_copied_by_words() {
    let ports = [
        ("wide_input", 64, 0, PortDirection::Input),
        ("wide_output", 255, 128, PortDirection::Output),
    ];
    let expected = model_part("wide_main")
        + r#"
    void ffi_Vwide_main_pin_wide_input(Vwide_main* top, const EData* new_value) {
        std::memcpy(top->wide_input.data(), new_value, 12);
    }
            
"# + r#"
    const EData* /* return value */ ffi_Vwide_main_read_wide_output(Vwide_main* top) {
        return top->wide_output.data();
    }
            
} // extern "C"
"#;
    assert_eq!(build_ffi("wide_main", &ports, None), expected);
}

fn trace_part(top_module: &str, class: &str, open_next: &str) -> String {
    let ever_on = ffi_names::TRACE_EVER_ON;
    let open = ffi_names::open_trace(top_module);
    let dump = ffi_names::TRACE_DUMP;
    let next = ffi_names::TRACE_OPEN_NEXT;
    let flush = ffi_names::TRACE_FLUSH;
    let close = ffi_names::TRACE_CLOSE_AND_DELETE;
    format!(
        r#"
    void {ever_on}(bool everOn) {{
        Verilated::traceEverOn(everOn);
    }}

    #include <stdio.h>
    {class}* {open}(V{top_module}* top, const char* path) {{
        {class}* trace = new {class};
        top->trace(trace, 99);
        trace->open(path);
        return trace;
    }}

    void {dump}({class}* trace, uint64_t timestamp) {{
        trace->dump(timestamp);
    }}

    void {next}({class}* trace, bool increment_filename) {{
        {open_next}
    }}

    void {flush}({class}* trace) {{
        trace->flush();
    }}

    void {close}({class}* trace) {{
        trace->close();
        delete trace;
    }}

"#
    )
}

#[test]
fn tracing_adds_headers_and_functions() {
    let vcd = format!(
        "#include \"verilated_vcd_c.h\"\n#include <stdint.h>\n{}{}}} // extern \"C\"\n",
        model_part("main"),
        trace_part("main", "VerilatedVcdC", "trace->openNext(increment_filename);")
    );
    assert_eq!(build_ffi("main", &[], Some(Waveform::Vcd)), vcd);
    let fst = format!(
        "#include \"verilated_fst_c.h\"\n#include <stdint.h>\n{}{}}} // extern \"C\"\n",
        model_part("main"),
        trace_part("main", "VerilatedFstC", "/* does not exist */")
    );
    assert_eq!(build_ffi("main", &[], Some(Waveform::Fst)), fst);
}

fn function(name: &str, parameters: &[(&str, &str)]) -> DpiSignature {
    DpiSignature {
        name: name.to_owned(),
        parameters: parameters
            .iter()
            .map(|(name, ty)| (name.to_string(), ty.to_string()))
            .collect(),
        pointer: 0,
    }
}

#[test]
fn dpi_functions_call_through_pointers() {
    let functions = [
        function("three", &[("out", "uint32_t*")]),
        function("hello", &[]),
        function("sum", &[("a", "uint8_t"), ("b", "uint16_t")]),
    ];
    let callback = ffi_names::DPI_INIT_CALLBACK;
    let expected = format!(
        "#include \"svdpi.h\"
#include \"Vmain__Dpi.h\"
#include <stdint.h>
static void (*rust_three)(uint32_t* out);
extern \"C\" void three(uint32_t* out) {{
    rust_three(out);
}}
static void (*rust_hello)();
extern \"C\" void hello() {{
    rust_hello();
}}
static void (*rust_sum)(uint8_t a, uint16_t b);
extern \"C\" void sum(uint8_t a, uint16_t b) {{
    rust_sum(a,b);
}}
extern \"C\" void {callback}(void** callbacks) {{
   rust_three = ( void(*)(uint32_t* out) ) callbacks[0];
   rust_hello = ( void(*)() ) callbacks[1];
   rust_sum = ( void(*)(uint8_t a, uint16_t b) ) callbacks[2];
}}"
    );
    assert_eq!(dpi_source("main", &functions), expected);
}

#[test]
fn without_dpi_functions_nothing_is_bound() {
    let binding = bind_dpi_if_needed("main", &[], &None);
    assert_eq!(binding.file, None);
    assert_eq!(binding.code, None);
    let binding = bind_dpi_if_needed("main", &[], &Some("something".to_owned()));
    assert_eq!(binding.file, None);
    assert_eq!(binding.code, None);
}

#[test]
fn dpi_functions_are_bound_on_change_only() {
    let functions = [function("three", &[("out", "uint32_t*")])];
    let code = dpi_source("main", &functions);
    let missing = bind_dpi_if_needed("main", &functions, &None);
    assert_eq!(missing.file, Some("../dpi/dpi.cpp"));
    assert_eq!(missing.code, Some(code.clone()));
    let current = bind_dpi_if_needed("main", &functions, &Some(code.clone()));
    assert_eq!(current.file, Some("../dpi/dpi.cpp"));
    assert_eq!(current.code, None);
    let other = [function("four", &[("out", "uint32_t*")])];
    let changed = bind_dpi_if_needed("main", &other, &Some(code.clone()));
    assert_eq!(changed.code, Some(dpi_source("main", &other)));
    let renamed = bind_dpi_if_needed("top", &functions, &Some(code));
    assert_eq!(renamed.code, Some(dpi_source("top", &functions)));
}

#[test]
fn read_functions_assign_nothing() {
    for (high, low) in [(0, 0), (63, 0), (255, 128)] {
        let code = build_ffi("main", &[("out", high, low, PortDirection::Output)], None);
        assert!(code.contains("ffi_Vmain_read_out"));
        assert!(!code.contains('='));
    }
}
