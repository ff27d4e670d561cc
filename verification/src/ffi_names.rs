//! The names of the C functions that a built library exposes.

use vstd::prelude::*;
use vstd::string::*;

verus! {

/// Hands the DPI functions to the library.
pub const DPI_INIT_CALLBACK: &'static str = "dpi_init_callback";

/// Switches tracing on, before any model is made.
pub const TRACE_EVER_ON: &'static str = "ffi_Verilated_traceEverOn";

/// Writes a sample to a trace.
pub const TRACE_DUMP: &'static str = "ffi_trace_dump";

/// Goes on in the next trace file.
pub const TRACE_OPEN_NEXT: &'static str = "ffi_trace_open_next";

/// Flushes a trace.
pub const TRACE_FLUSH: &'static str = "ffi_trace_flush";

/// Closes a trace and frees it.
pub const TRACE_CLOSE_AND_DELETE: &'static str = "ffi_trace_close_and_delete";

/// The name of the function that makes a model.
pub open spec fn new_top_name(top_module: Seq<char>) -> Seq<char> {
    "ffi_new_V"@ + top_module
}

/// The name of the function that frees a model.
pub open spec fn delete_top_name(top_module: Seq<char>) -> Seq<char> {
    "ffi_delete_V"@ + top_module
}

/// The name of the function that evaluates a model.
pub open spec fn top_eval_name(top_module: Seq<char>) -> Seq<char> {
    "ffi_V"@ + top_module + "_eval"@
}

/// The name of the function that writes a port.
pub open spec fn pin_port_name(top_module: Seq<char>, port: Seq<char>) -> Seq<char> {
    "ffi_V"@ + top_module + "_pin_"@ + port
}

/// The name of the function that reads a port.
pub open spec fn read_port_name(top_module: Seq<char>, port: Seq<char>) -> Seq<char> {
    "ffi_V"@ + top_module + "_read_"@ + port
}

/// The name of the function that opens a trace.
pub open spec fn open_trace_name(top_module: Seq<char>) -> Seq<char> {
    "ffi_V"@ + top_module + "_open_trace"@
}

/// The function that makes a model.
pub fn new_top(top_module: &str) -> (name: String)
    ensures
        name@ == new_top_name(top_module@),
{
    let mut name = "ffi_new_V".to_owned();
    name.append(top_module);
    name
}

/// The function that frees a model.
pub fn delete_top(top_module: &str) -> (name: String)
    ensures
        name@ == delete_top_name(top_module@),
{
    let mut name = "ffi_delete_V".to_owned();
    name.append(top_module);
    name
}

/// The function that evaluates a model.
pub fn top_eval(top_module: &str) -> (name: String)
    ensures
        name@ == top_eval_name(top_module@),
{
    let mut name = "ffi_V".to_owned();
    name.append(top_module);
    name.append("_eval");
    name
}

/// The function that writes a port.
pub fn pin_port(top_module: &str, port: &str) -> (name: String)
    ensures
        name@ == pin_port_name(top_module@, port@),
{
    let mut name = "ffi_V".to_owned();
    name.append(top_module);
    name.append("_pin_");
    name.append(port);
    name
}

/// The function that reads a port.
pub fn read_port(top_module: &str, port: &str) -> (name: String)
    ensures
        name@ == read_port_name(top_module@, port@),
{
    let mut name = "ffi_V".to_owned();
    name.append(top_module);
    name.append("_read_");
    name.append(port);
    name
}

/// The function that opens a trace.
pub fn open_trace(top_module: &str) -> (name: String)
    ensures
        name@ == open_trace_name(top_module@),
{
    let mut name = "ffi_V".to_owned();
    name.append(top_module);
    name.append("_open_trace");
    name
}

/// Within a module, the functions of two ports have the same name only if they do the same thing
/// to the same port.
pub proof fn law_port_functions_are_distinct(top: Seq<char>, one: Seq<char>, other: Seq<char>)
    ensures
        pin_port_name(top, one) == pin_port_name(top, other) ==> one == other,
        read_port_name(top, one) == read_port_name(top, other) ==> one == other,
        pin_port_name(top, one) != read_port_name(top, other),
{
    reveal_strlit("ffi_V");
    reveal_strlit("_pin_");
    reveal_strlit("_read_");
    let pin = "ffi_V"@ + top + "_pin_"@;
    let read = "ffi_V"@ + top + "_read_"@;
    assert(pin_port_name(top, one).skip(pin.len() as int) =~= one);
    assert(pin_port_name(top, other).skip(pin.len() as int) =~= other);
    assert(read_port_name(top, one).skip(read.len() as int) =~= one);
    assert(read_port_name(top, other).skip(read.len() as int) =~= other);
    let at = 5 + top.len() + 1;
    assert(pin_port_name(top, one)[at as int] == 'p');
    assert(read_port_name(top, other)[at as int] == 'r');
}

/// Every function of a model is named after the module, and those of a port after the port too.
pub proof fn law_functions_are_named_after_module_and_port(top: Seq<char>, port: Seq<char>)
    ensures
        new_top_name(top) == "ffi_new_V"@ + top,
        delete_top_name(top) == "ffi_delete_V"@ + top,
        top_eval_name(top) == "ffi_V"@ + top + "_eval"@,
        pin_port_name(top, port) == "ffi_V"@ + top + "_pin_"@ + port,
        read_port_name(top, port) == "ffi_V"@ + top + "_read_"@ + port,
        open_trace_name(top) == "ffi_V"@ + top + "_open_trace"@,
{
}

} // verus!
