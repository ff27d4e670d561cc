//! The C++ file that exposes a Verilator model through C functions.

use vstd::prelude::*;
use vstd::string::*;

use crate::config::Waveform;
use crate::ffi_names;
use crate::port::{self, Port, PortClass, PortDirection};
use crate::text;
use crate::wide;

verus! {

/// The macro that declares a port of some direction and class.
pub open spec fn type_macro(direction: PortDirection, class: PortClass) -> Seq<char> {
    (match direction {
        PortDirection::Input => "VL_IN"@,
        PortDirection::Output => "VL_OUT"@,
        PortDirection::Inout => "VL_INOUT"@,
    }) + (match class {
        PortClass::Byte => "8"@,
        PortClass::Short => "16"@,
        PortClass::Int => ""@,
        PortClass::Quad => "64"@,
        PortClass::Wide => "W"@,
    })
}

/// The C++ type that carries a port's value: a macro call around `name` up to 64 bits, a pointer to
/// words beyond.
pub open spec fn port_type(port: Port, name: Seq<char>) -> Seq<char> {
    let class = port::class_of_width(port::port_width(port));
    if class == PortClass::Wide {
        "const EData* "@ + name
    } else {
        type_macro(port.3, class) + "("@ + name + ", "@ + text::decimal(port.1 as nat) + ", "@
            + text::decimal(port.2 as nat) + ")"@
    }
}

/// The bytes that are copied into a wide port.
pub open spec fn copied_bytes(width: nat) -> nat {
    wide::word_count(width) * 4
}

/// The statement that stores a new value in a port.
pub open spec fn pin_code(port: Port) -> Seq<char> {
    if port::port_width(port) <= 64 {
        "top->"@ + port.0@ + " = new_value;"@
    } else {
        "std::memcpy(top->"@ + port.0@ + ".data(), new_value, "@ + text::decimal(
            copied_bytes(port::port_width(port)),
        ) + ");"@
    }
}

/// The head of the function that writes a port, up to the value's type.
pub open spec fn pin_head(top_module: Seq<char>, port: Seq<char>) -> Seq<char> {
    "\n    void "@ + ffi_names::pin_port_name(top_module, port) + "(V"@ + top_module + "* top, "@
}

/// The function that writes a port.
pub open spec fn pin_function(top_module: Seq<char>, port: Port) -> Seq<char> {
    pin_head(top_module, port.0@) + port_type(port, "new_value"@) + ") {\n        "@ + pin_code(port)
        + "\n    }\n            \n"@
}

/// The head of the function that reads a port, from the value's type on.
pub open spec fn read_head(top_module: Seq<char>, port: Port) -> Seq<char> {
    "\n    "@ + port_type(port, "/* return value */"@) + " "@ + ffi_names::read_port_name(
        top_module,
        port.0@,
    ) + "(V"@ + top_module + "* top) {\n"@
}

/// The function that reads a port.
pub open spec fn read_function(top_module: Seq<char>, port: Port) -> Seq<char> {
    read_head(top_module, port) + "        return top->"@ + port.0@ + (if port::port_width(port)
        > 64 {
        ".data()"@
    } else {
        ""@
    }) + ";\n    }\n            \n"@
}

/// The functions of one port: one that writes it where it takes input, one that reads it where it
/// gives output.
pub open spec fn port_functions(top_module: Seq<char>, port: Port) -> Seq<char> {
    (if port.3.is_input() {
        pin_function(top_module, port)
    } else {
        Seq::empty()
    }) + (if port.3.is_output() {
        read_function(top_module, port)
    } else {
        Seq::empty()
    })
}

/// The functions of all ports, in order.
pub open spec fn all_port_functions(top_module: Seq<char>, ports: Seq<Port>) -> Seq<char>
    decreases ports.len(),
{
    if ports.len() == 0 {
        Seq::empty()
    } else {
        all_port_functions(top_module, ports.drop_last()) + port_functions(
            top_module,
            ports.last(),
        )
    }
}

/// The C++ class of a trace.
pub open spec fn waveform_class(waveform: Waveform) -> Seq<char> {
    match waveform {
        Waveform::Vcd => "VerilatedVcdC"@,
        Waveform::Fst => "VerilatedFstC"@,
    }
}

/// The functions that drive a trace.
pub open spec fn trace_functions(top_module: Seq<char>, waveform: Waveform) -> Seq<char> {
    let class = waveform_class(waveform);
    "\n    void "@ + ffi_names::TRACE_EVER_ON@
        + "(bool everOn) {\n        Verilated::traceEverOn(everOn);\n    }\n\n    #include <stdio.h>\n    "@
        + class + "* "@ + ffi_names::open_trace_name(top_module) + "(V"@ + top_module
        + "* top, const char* path) {\n        "@ + class + "* trace = new "@ + class
        + ";\n        top->trace(trace, 99);\n        trace->open(path);\n        return trace;\n    }\n\n    void "@
        + ffi_names::TRACE_DUMP@ + "("@ + class
        + "* trace, uint64_t timestamp) {\n        trace->dump(timestamp);\n    }\n\n    void "@
        + ffi_names::TRACE_OPEN_NEXT@ + "("@ + class
        + "* trace, bool increment_filename) {\n        "@ + (match waveform {
        Waveform::Vcd => "trace->openNext(increment_filename);"@,
        Waveform::Fst => "/* does not exist */"@,
    }) + "\n    }\n\n    void "@ + ffi_names::TRACE_FLUSH@ + "("@ + class
        + "* trace) {\n        trace->flush();\n    }\n\n    void "@
        + ffi_names::TRACE_CLOSE_AND_DELETE@ + "("@ + class
        + "* trace) {\n        trace->close();\n        delete trace;\n    }\n\n"@
}

/// The headers that tracing needs.
pub open spec fn trace_headers(waveform: Option<Waveform>) -> Seq<char> {
    match waveform {
        Some(Waveform::Vcd) => "#include \"verilated_vcd_c.h\"\n"@ + "#include <stdint.h>\n"@,
        Some(Waveform::Fst) => "#include \"verilated_fst_c.h\"\n"@ + "#include <stdint.h>\n"@,
        None => Seq::empty(),
    }
}

/// The headers, the opening of the C block, and the functions that make, evaluate and free a model.
pub open spec fn model_functions(top_module: Seq<char>) -> Seq<char> {
    "\n#include <cstring> // std::memcpy\n#include \"verilated.h\"\n#include \"V"@ + top_module
        + ".h\"\n\nextern \"C\" {\n    void* "@ + ffi_names::new_top_name(top_module)
        + "() {\n        return new V"@ + top_module + "{};\n    }\n\n    \n    void "@
        + ffi_names::top_eval_name(top_module) + "(V"@ + top_module
        + "* top) {\n        top->eval();\n    }\n\n    void "@ + ffi_names::delete_top_name(
        top_module,
    ) + "(V"@ + top_module + "* top) {\n        delete top;\n    }\n\n"@
}

/// The whole file.
pub open spec fn ffi_text(
    top_module: Seq<char>,
    ports: Seq<Port>,
    tracing: Option<Waveform>,
) -> Seq<char> {
    trace_headers(tracing) + model_functions(top_module) + all_port_functions(top_module, ports) + (
    match tracing {
        Some(waveform) => trace_functions(top_module, waveform),
        None => Seq::empty(),
    }) + "} // extern \"C\"\n"@
}

/// The C++ type that carries a port's value.
fn port_type_text(port: Port, width: usize, name: &str) -> (code: String)
    requires
        port::well_spanned(port),
        width == port::port_width(port),
    ensures
        code@ == port_type(port, name@),
{
    let class = port::port_class(width);
    if class == PortClass::Wide {
        let mut code = "const EData* ".to_owned();
        code.append(name);
        code
    } else {
        let mut code = (match port.3 {
            PortDirection::Input => "VL_IN",
            PortDirection::Output => "VL_OUT",
            PortDirection::Inout => "VL_INOUT",
        }).to_owned();
        code.append(
            match class {
                PortClass::Byte => "8",
                PortClass::Short => "16",
                PortClass::Int => "",
                PortClass::Quad => "64",
                PortClass::Wide => "W",
            },
        );
        code.append("(");
        code.append(name);
        code.append(", ");
        text::push_decimal(&mut code, port.1 as u64);
        code.append(", ");
        text::push_decimal(&mut code, port.2 as u64);
        code.append(")");
        code
    }
}

/// The statement that stores a new value in a port.
fn pin_code_text(port: Port, width: usize) -> (code: String)
    requires
        port::well_spanned(port),
        width == port::port_width(port),
    ensures
        code@ == pin_code(port),
{
    if width <= 64 {
        let mut code = "top->".to_owned();
        code.append(port.0);
        code.append(" = new_value;");
        code
    } else {
        let words: usize = wide::compute_wdata_word_count_from_width_not_msb(width);
        let bytes: usize = words * wide::WORD_BYTES;
        let mut code = "std::memcpy(top->".to_owned();
        code.append(port.0);
        code.append(".data(), new_value, ");
        text::push_decimal(&mut code, bytes as u64);
        code.append(");");
        code
    }
}

/// Appends the functions of one port.
fn push_port_functions(buffer: &mut String, top_module: &str, port: Port)
    requires
        port::well_spanned(port),
    ensures
        final(buffer)@ == old(buffer)@ + port_functions(top_module@, port),
{
    let width: usize = port.1 - port.2 + 1;
    let mut code = String::new();
    if port.3.takes_input() {
        let mut function = "\n    void ".to_owned();
        function.append(ffi_names::pin_port(top_module, port.0).as_str());
        function.append("(V");
        function.append(top_module);
        function.append("* top, ");
        function.append(port_type_text(port, width, "new_value").as_str());
        function.append(") {\n        ");
        function.append(pin_code_text(port, width).as_str());
        function.append("\n    }\n            \n");
        code = function;
    }
    if port.3.gives_output() {
        let mut function = "\n    ".to_owned();
        function.append(port_type_text(port, width, "/* return value */").as_str());
        function.append(" ");
        function.append(ffi_names::read_port(top_module, port.0).as_str());
        function.append("(V");
        function.append(top_module);
        function.append("* top) {\n");
        function.append("        return top->");
        function.append(port.0);
        function.append(if width > 64 { ".data()" } else { "" });
        function.append(";\n    }\n            \n");
        code.append(function.as_str());
    }
    proof {
        assert(code@ =~= port_functions(top_module@, port));
    }
    buffer.append(code.as_str());
}

/// The functions that drive a trace.
fn build_ffi_for_tracing(top_module: &str, waveform: Waveform) -> (code: String)
    ensures
        code@ == trace_functions(top_module@, waveform),
{
    let class = match waveform {
        Waveform::Vcd => "VerilatedVcdC",
        Waveform::Fst => "VerilatedFstC",
    };
    let open_next = match waveform {
        Waveform::Vcd => "trace->openNext(increment_filename);",
        Waveform::Fst => "/* does not exist */",
    };
    let mut code = "\n    void ".to_owned();
    code.append(ffi_names::TRACE_EVER_ON);
    code.append("(bool everOn) {\n        Verilated::traceEverOn(everOn);\n    }\n\n    #include <stdio.h>\n    ");
    code.append(class);
    code.append("* ");
    code.append(ffi_names::open_trace(top_module).as_str());
    code.append("(V");
    code.append(top_module);
    code.append("* top, const char* path) {\n        ");
    code.append(class);
    code.append("* trace = new ");
    code.append(class);
    code.append(";\n        top->trace(trace, 99);\n        trace->open(path);\n        return trace;\n    }\n\n    void ");
    code.append(ffi_names::TRACE_DUMP);
    code.append("(");
    code.append(class);
    code.append("* trace, uint64_t timestamp) {\n        trace->dump(timestamp);\n    }\n\n    void ");
    code.append(ffi_names::TRACE_OPEN_NEXT);
    code.append("(");
    code.append(class);
    code.append("* trace, bool increment_filename) {\n        ");
    code.append(open_next);
    code.append("\n    }\n\n    void ");
    code.append(ffi_names::TRACE_FLUSH);
    code.append("(");
    code.append(class);
    code.append("* trace) {\n        trace->flush();\n    }\n\n    void ");
    code.append(ffi_names::TRACE_CLOSE_AND_DELETE);
    code.append("(");
    code.append(class);
    code.append("* trace) {\n        trace->close();\n        delete trace;\n    }\n\n");
    code
}

/// The headers, the opening of the C block, and the functions that make, evaluate and free a model.
fn model_functions_text(top_module: &str) -> (code: String)
    ensures
        code@ == model_functions(top_module@),
{
    let mut code = "\n#include <cstring> // std::memcpy\n#include \"verilated.h\"\n#include \"V".to_owned();
    code.append(top_module);
    code.append(".h\"\n\nextern \"C\" {\n    void* ");
    code.append(ffi_names::new_top(top_module).as_str());
    code.append("() {\n        return new V");
    code.append(top_module);
    code.append("{};\n    }\n\n    \n    void ");
    code.append(ffi_names::top_eval(top_module).as_str());
    code.append("(V");
    code.append(top_module);
    code.append("* top) {\n        top->eval();\n    }\n\n    void ");
    code.append(ffi_names::delete_top(top_module).as_str());
    code.append("(V");
    code.append(top_module);
    code.append("* top) {\n        delete top;\n    }\n\n");
    code
}

/// Writes the C++ bindings for a Verilator model with the given name and signature.
///
/// The functions that make ([`ffi_names::new_top`]) and free ([`ffi_names::delete_top`]) a model
/// wrap C++ `new` and `delete`; the deletion is of the pointer made with `new` in the former.
///
/// The functions that read ([`ffi_names::read_port`]) and write ([`ffi_names::pin_port`]) ports
/// directly read and write class members of that pointer.
///
/// The function that evaluates the model ([`ffi_names::top_eval`]) simply calls `eval`.
pub fn build_ffi(top_module: &str, ports: &[Port], enable_tracing: Option<Waveform>) -> (code:
    String)
    requires
        forall|i: int| 0 <= i < ports@.len() ==> port::well_spanned(#[trigger] ports@[i]),
    ensures
        code@ == ffi_text(top_module@, ports@, enable_tracing),
{
    let mut code = String::new();
    if let Some(waveform) = enable_tracing {
        code = (match waveform {
            Waveform::Vcd => "#include \"verilated_vcd_c.h\"\n",
            Waveform::Fst => "#include \"verilated_fst_c.h\"\n",
        }).to_owned();
        code.append("#include <stdint.h>\n");
    }
    assert(code@ =~= trace_headers(enable_tracing));
    code.append(model_functions_text(top_module).as_str());
    let mut functions = String::new();
    let mut i: usize = 0;
    while i < ports.len()
        invariant
            i <= ports@.len(),
            forall|j: int| 0 <= j < ports@.len() ==> port::well_spanned(#[trigger] ports@[j]),
            functions@ == all_port_functions(top_module@, ports@.take(i as int)),
        decreases ports@.len() - i,
    {
        push_port_functions(&mut functions, top_module, ports[i]);
        proof {
            assert(ports@.take(i + 1).drop_last() =~= ports@.take(i as int));
        }
        i = i + 1;
    }
    proof {
        assert(ports@.take(ports@.len() as int) =~= ports@);
    }
    code.append(functions.as_str());
    if let Some(waveform) = enable_tracing {
        code.append(build_ffi_for_tracing(top_module, waveform).as_str());
    }
    proof {
        if enable_tracing is None {
            assert(code@ =~= code@ + Seq::empty());
        }
    }
    code.append("} // extern \"C\"\n");
    code
}

/// The functions of the port at `i` stand among those of all ports.
proof fn lemma_port_functions_within(top_module: Seq<char>, ports: Seq<Port>, i: int)
    requires
        0 <= i < ports.len(),
    ensures
        text::contains(
            all_port_functions(top_module, ports),
            port_functions(top_module, ports[i]),
        ),
    decreases ports.len(),
{
    let part = port_functions(top_module, ports[i]);
    let earlier = all_port_functions(top_module, ports.drop_last());
    let last = port_functions(top_module, ports.last());
    if i == ports.len() - 1 {
        text::lemma_contains_itself(part);
        text::lemma_contains_within(earlier, last, Seq::empty(), part);
    } else {
        lemma_port_functions_within(top_module, ports.drop_last(), i);
        text::lemma_contains_within(Seq::empty(), earlier, last, part);
    }
}

/// What stands among the functions of the port at `i` stands in the file.
proof fn lemma_within_file(
    top_module: Seq<char>,
    ports: Seq<Port>,
    tracing: Option<Waveform>,
    i: int,
    part: Seq<char>,
)
    requires
        0 <= i < ports.len(),
        text::contains(port_functions(top_module, ports[i]), part),
    ensures
        text::contains(ffi_text(top_module, ports, tracing), part),
{
    let functions = all_port_functions(top_module, ports);
    let before = trace_headers(tracing) + model_functions(top_module);
    let traces = match tracing {
        Some(waveform) => trace_functions(top_module, waveform),
        None => Seq::empty(),
    };
    let end = "} // extern \"C\"\n"@;
    lemma_port_functions_within(top_module, ports, i);
    lemma_contains_transitive(functions, port_functions(top_module, ports[i]), part);
    text::lemma_contains_within(before, functions, traces, part);
    text::lemma_contains_within(Seq::empty(), before + functions + traces, end, part);
}

/// Every port that takes input has a function in the file that writes it, and every port that gives
/// output one that reads it, under the names by which a model looks them up.
pub proof fn law_every_port_is_exposed(
    top_module: Seq<char>,
    ports: Seq<Port>,
    tracing: Option<Waveform>,
    i: int,
)
    requires
        0 <= i < ports.len(),
    ensures
        ports[i].3.is_input() ==> text::contains(
            ffi_text(top_module, ports, tracing),
            pin_function(top_module, ports[i]),
        ),
        ports[i].3.is_output() ==> text::contains(
            ffi_text(top_module, ports, tracing),
            read_function(top_module, ports[i]),
        ),
{
    let pin = pin_function(top_module, ports[i]);
    let read = read_function(top_module, ports[i]);
    let first = if ports[i].3.is_input() {
        pin
    } else {
        Seq::empty()
    };
    let second = if ports[i].3.is_output() {
        read
    } else {
        Seq::empty()
    };
    if ports[i].3.is_input() {
        text::lemma_contains_itself(pin);
        text::lemma_contains_within(Seq::empty(), first, second, pin);
        lemma_within_file(top_module, ports, tracing, i, pin);
    }
    if ports[i].3.is_output() {
        text::lemma_contains_itself(read);
        text::lemma_contains_within(first, second, Seq::empty(), read);
        lemma_within_file(top_module, ports, tracing, i, read);
    }
}

/// Standing in something that stands in the whole is standing in the whole.
proof fn lemma_contains_transitive(whole: Seq<char>, middle: Seq<char>, part: Seq<char>)
    requires
        text::contains(whole, middle),
        text::contains(middle, part),
    ensures
        text::contains(whole, part),
{
    let at = choose|at: int|
        0 <= at && at + middle.len() <= whole.len() && #[trigger] whole.subrange(
            at,
            at + middle.len(),
        ) == middle;
    text::lemma_contains_within(
        whole.take(at),
        middle,
        whole.skip(at + middle.len()),
        part,
    );
    assert(whole.take(at) + middle + whole.skip(at + middle.len()) =~= whole);
}

/// Of five pieces put together, the second and the fourth stand in the whole.
proof fn lemma_pieces(a: Seq<char>, b: Seq<char>, c: Seq<char>, d: Seq<char>, e: Seq<char>)
    ensures
        text::contains(a + b + c + d + e, b),
        text::contains(a + b + c + d + e, d),
{
    text::lemma_contains_itself(b);
    text::lemma_contains_within(a, b, c, b);
    text::lemma_contains_within(Seq::empty(), a + b + c, d, b);
    text::lemma_contains_within(Seq::empty(), a + b + c + d, e, b);
    text::lemma_contains_itself(d);
    text::lemma_contains_within(a + b + c, d, e, d);
}

/// The file holds the functions that make, evaluate and free a model, and with tracing those that
/// drive a trace.
pub proof fn law_model_functions_are_exposed(
    top_module: Seq<char>,
    ports: Seq<Port>,
    tracing: Option<Waveform>,
)
    ensures
        text::contains(ffi_text(top_module, ports, tracing), model_functions(top_module)),
        tracing matches Some(waveform) ==> text::contains(
            ffi_text(top_module, ports, tracing),
            trace_functions(top_module, waveform),
        ),
{
    lemma_pieces(
        trace_headers(tracing),
        model_functions(top_module),
        all_port_functions(top_module, ports),
        match tracing {
            Some(waveform) => trace_functions(top_module, waveform),
            None => Seq::empty(),
        },
        "} // extern \"C\"\n"@,
    );
}

/// Whether a text has no equals sign.
pub open spec fn assigns_nothing(s: Seq<char>) -> bool {
    forall|i: int| 0 <= i < s.len() ==> #[trigger] s[i] != '='
}

proof fn lemma_number_assigns_nothing(n: nat)
    ensures
        assigns_nothing(text::decimal(n)),
{
    text::lemma_decimal_digits(n);
    let digits = text::decimal(n);
    assert forall|i: int| 0 <= i < digits.len() implies #[trigger] digits[i] != '=' by {
        assert(text::is_digit(digits[i]));
    }
}

proof fn lemma_type_assigns_nothing(port: Port, name: Seq<char>)
    requires
        assigns_nothing(name),
    ensures
        assigns_nothing(port_type(port, name)),
{
    lemma_number_assigns_nothing(port.1 as nat);
    lemma_number_assigns_nothing(port.2 as nat);
    reveal_strlit("const EData* ");
    reveal_strlit("VL_IN");
    reveal_strlit("VL_OUT");
    reveal_strlit("VL_INOUT");
    reveal_strlit("8");
    reveal_strlit("16");
    reveal_strlit("");
    reveal_strlit("64");
    reveal_strlit("W");
    reveal_strlit("(");
    reveal_strlit(", ");
    reveal_strlit(")");
    assert(assigns_nothing(type_macro(port.3, port::class_of_width(port::port_width(port)))));
}

/// The function that reads a port assigns nothing: it has no equals sign, since no name has one.
pub proof fn law_read_function_assigns_nothing(top_module: Seq<char>, port: Port)
    requires
        assigns_nothing(top_module),
        assigns_nothing(port.0@),
    ensures
        assigns_nothing(read_function(top_module, port)),
{
    reveal_strlit("/* return value */");
    lemma_type_assigns_nothing(port, "/* return value */"@);
    reveal_strlit("\n    ");
    reveal_strlit(" ");
    reveal_strlit("ffi_V");
    reveal_strlit("_read_");
    reveal_strlit("(V");
    reveal_strlit("* top) {\n");
    reveal_strlit("        return top->");
    reveal_strlit(".data()");
    reveal_strlit("");
    reveal_strlit(";\n    }\n            \n");
    assert(assigns_nothing(ffi_names::read_port_name(top_module, port.0@)));
    assert(assigns_nothing(read_head(top_module, port)));
}

/// The functions of a port: where it takes input, one whose statement stores the new value, where it
/// gives output, one that returns the value, and where it does both, the one and then the other.
///
/// Up to 64 bits the value is passed by the macro of the port's direction and of the narrowest C
/// type, and assigned. Beyond, it is passed by address, and exactly the bytes of the least number of
/// 32-bit words that hold the port are copied.
pub proof fn law_port_functions_store_and_return(
    top_module: Seq<char>,
    port: Port,
    width: nat,
    words: nat,
    macro_name: Seq<char>,
    new_type: Seq<char>,
    return_type: Seq<char>,
    store: Seq<char>,
    value: Seq<char>,
    pin: Seq<char>,
    read: Seq<char>,
)
    requires
        port.2 <= port.1,
        width == port.1 - port.2 + 1,
        words * 32 < width + 32,
        width <= words * 32,
        macro_name == (match port.3 {
            PortDirection::Input => "VL_IN"@,
            PortDirection::Output => "VL_OUT"@,
            PortDirection::Inout => "VL_INOUT"@,
        }) + (if width <= 8 {
            "8"@
        } else if width <= 16 {
            "16"@
        } else if width <= 32 {
            ""@
        } else {
            "64"@
        }),
        width <= 64 ==> new_type == macro_name + "("@ + "new_value"@ + ", "@ + text::decimal(
            port.1 as nat,
        ) + ", "@ + text::decimal(port.2 as nat) + ")"@,
        width > 64 ==> new_type == "const EData* "@ + "new_value"@,
        width <= 64 ==> return_type == macro_name + "("@ + "/* return value */"@ + ", "@
            + text::decimal(port.1 as nat) + ", "@ + text::decimal(port.2 as nat) + ")"@,
        width > 64 ==> return_type == "const EData* "@ + "/* return value */"@,
        width <= 64 ==> store == "top->"@ + port.0@ + " = new_value;"@,
        width > 64 ==> store == "std::memcpy(top->"@ + port.0@ + ".data(), new_value, "@
            + text::decimal(4 * words) + ");"@,
        value == (if width > 64 {
            ".data()"@
        } else {
            ""@
        }),
        pin == "\n    void "@ + ("ffi_V"@ + top_module + "_pin_"@ + port.0@) + "(V"@ + top_module
            + "* top, "@ + new_type + ") {\n        "@ + store + "\n    }\n            \n"@,
        read == "\n    "@ + return_type + " "@ + ("ffi_V"@ + top_module + "_read_"@ + port.0@)
            + "(V"@ + top_module + "* top) {\n"@ + "        return top->"@ + port.0@ + value
            + ";\n    }\n            \n"@,
    ensures
        port.3 is Input ==> port_functions(top_module, port) == pin,
        port.3 is Output ==> port_functions(top_module, port) == read,
        port.3 is Inout ==> port_functions(top_module, port) == pin + read,
{
    assert(width == port::port_width(port));
    assert(words == wide::word_count(width));
    assert(copied_bytes(width) == 4 * words);
    assert(new_type == port_type(port, "new_value"@));
    assert(return_type == port_type(port, "/* return value */"@));
    assert(store == pin_code(port));
    assert(pin == pin_function(top_module, port));
    assert(read == read_function(top_module, port));
    assert(port.3 is Input ==> port_functions(top_module, port) =~= pin);
    assert(port.3 is Output ==> port_functions(top_module, port) =~= read);
    assert(port.3 is Inout ==> port_functions(top_module, port) =~= pin + read);
}

proof fn lemma_all_port_functions(
    top_module: Seq<char>,
    ports: Seq<Port>,
    functions: Seq<Seq<char>>,
)
    requires
        functions.len() == ports.len(),
        forall|i: int|
            0 <= i < ports.len() ==> #[trigger] functions[i] == port_functions(
                top_module,
                ports[i],
            ),
    ensures
        all_port_functions(top_module, ports) == text::joined(functions, Seq::empty()),
    decreases ports.len(),
{
    if ports.len() > 0 {
        lemma_all_port_functions(top_module, ports.drop_last(), functions.drop_last());
        assert(functions.last() == port_functions(top_module, ports.last()));
        assert(all_port_functions(top_module, ports) =~= text::joined(functions, Seq::empty()));
    }
}

/// The file is made of its headers, the functions that make, evaluate and free a model, those of
/// every port in order with nothing between them, and, if tracing is enabled, those that drive a
/// trace.
pub proof fn law_file_holds_all_functions_in_order(
    top_module: Seq<char>,
    ports: Seq<Port>,
    tracing: Option<Waveform>,
    functions: Seq<Seq<char>>,
    class: Seq<char>,
    next: Seq<char>,
    headers: Seq<char>,
    traces: Seq<char>,
)
    requires
        functions.len() == ports.len(),
        forall|i: int|
            0 <= i < ports.len() ==> #[trigger] functions[i] == port_functions(
                top_module,
                ports[i],
            ),
        tracing == Some(Waveform::Vcd) ==> class == "VerilatedVcdC"@ && next
            == "trace->openNext(increment_filename);"@ && headers
            == "#include \"verilated_vcd_c.h\"\n"@ + "#include <stdint.h>\n"@,
        tracing == Some(Waveform::Fst) ==> class == "VerilatedFstC"@ && next
            == "/* does not exist */"@ && headers == "#include \"verilated_fst_c.h\"\n"@
            + "#include <stdint.h>\n"@,
        tracing is None ==> headers == Seq::<char>::empty() && traces == Seq::<char>::empty(),
        tracing is Some ==> traces == "\n    void "@ + ffi_names::TRACE_EVER_ON@
            + "(bool everOn) {\n        Verilated::traceEverOn(everOn);\n    }\n\n    #include <stdio.h>\n    "@
            + class + "* "@ + ("ffi_V"@ + top_module + "_open_trace"@) + "(V"@ + top_module
            + "* top, const char* path) {\n        "@ + class + "* trace = new "@ + class
            + ";\n        top->trace(trace, 99);\n        trace->open(path);\n        return trace;\n    }\n\n    void "@
            + ffi_names::TRACE_DUMP@ + "("@ + class
            + "* trace, uint64_t timestamp) {\n        trace->dump(timestamp);\n    }\n\n    void "@
            + ffi_names::TRACE_OPEN_NEXT@ + "("@ + class
            + "* trace, bool increment_filename) {\n        "@ + next + "\n    }\n\n    void "@
            + ffi_names::TRACE_FLUSH@ + "("@ + class
            + "* trace) {\n        trace->flush();\n    }\n\n    void "@
            + ffi_names::TRACE_CLOSE_AND_DELETE@ + "("@ + class
            + "* trace) {\n        trace->close();\n        delete trace;\n    }\n\n"@,
    ensures
        ffi_text(top_module, ports, tracing) == headers + (
        "\n#include <cstring> // std::memcpy\n#include \"verilated.h\"\n#include \"V"@ + top_module
            + ".h\"\n\nextern \"C\" {\n    void* "@ + ("ffi_new_V"@ + top_module)
            + "() {\n        return new V"@ + top_module + "{};\n    }\n\n    \n    void "@ + ("ffi_V"@
            + top_module + "_eval"@) + "(V"@ + top_module
            + "* top) {\n        top->eval();\n    }\n\n    void "@ + ("ffi_delete_V"@ + top_module)
            + "(V"@ + top_module + "* top) {\n        delete top;\n    }\n\n"@) + text::joined(
            functions,
            Seq::empty(),
        ) + traces + "} // extern \"C\"\n"@,
{
    lemma_all_port_functions(top_module, ports, functions);
}

} // verus!
