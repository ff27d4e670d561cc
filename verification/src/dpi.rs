//! The C++ file that lets a model call DPI functions.

use vstd::prelude::*;
use vstd::string::*;

use crate::ffi_names;
use crate::text;

verus! {

/// A DPI function.
#[derive(Debug)]
pub struct DpiSignature {
    pub name: String,
    /// Each parameter as a name and a C++ type.
    pub parameters: Vec<(String, String)>,
    /// The address of the function.
    pub pointer: usize,
}

/// Where the compiler finds the file, seen from the directory that Verilator works in.
pub const DPI_FILE: &'static str = "../dpi/dpi.cpp";

/// A parameter as C++ declares it: the type, then the name.
pub open spec fn parameter_text(parameter: (String, String)) -> Seq<char> {
    parameter.1@ + " "@ + parameter.0@
}

/// The declared parameters.
pub open spec fn parameter_list(function: DpiSignature) -> Seq<char> {
    text::joined(
        function.parameters@.map_values(|parameter: (String, String)| parameter_text(parameter)),
        ", "@,
    )
}

/// The parameters as they are passed on.
pub open spec fn argument_list(function: DpiSignature) -> Seq<char> {
    text::joined(
        function.parameters@.map_values(|parameter: (String, String)| parameter.0@),
        ","@,
    )
}

/// A function pointer, and a C function that calls through it.
pub open spec fn function_definition(function: DpiSignature) -> Seq<char> {
    "static void (*rust_"@ + function.name@ + ")("@ + parameter_list(function)
        + ");\nextern \"C\" void "@ + function.name@ + "("@ + parameter_list(function)
        + ") {\n    rust_"@ + function.name@ + "("@ + argument_list(function) + ");\n}"@
}

/// The statement that sets a function's pointer from its slot among the callbacks.
pub open spec fn pointer_assignment(function: DpiSignature, slot: nat) -> Seq<char> {
    "   rust_"@ + function.name@ + " = ( void(*)("@ + parameter_list(function) + ") ) callbacks["@
        + text::decimal(slot) + "];"@
}

/// The definitions of all functions.
pub open spec fn definitions(functions: Seq<DpiSignature>) -> Seq<Seq<char>> {
    functions.map_values(|function: DpiSignature| function_definition(function))
}

/// The statements that set the pointers, the function at each index from the slot of that index.
pub open spec fn assignments(functions: Seq<DpiSignature>) -> Seq<Seq<char>> {
    functions.map(|slot: int, function: DpiSignature| pointer_assignment(function, slot as nat))
}

/// The whole file.
pub open spec fn dpi_text(top_module: Seq<char>, functions: Seq<DpiSignature>) -> Seq<char> {
    "#include \"svdpi.h\"\n#include \"V"@ + top_module + "__Dpi.h\"\n#include <stdint.h>\n"@
        + text::joined(definitions(functions), "\n"@) + "\nextern \"C\" void "@
        + ffi_names::DPI_INIT_CALLBACK@ + "(void** callbacks) {\n"@ + text::joined(
        assignments(functions),
        "\n"@,
    ) + "\n}"@
}

/// The declared parameters.
fn parameter_list_text(function: &DpiSignature) -> (list: String)
    ensures
        list@ == parameter_list(*function),
{
    let mut parts: Vec<String> = Vec::new();
    let ghost expected = function.parameters@.map_values(
        |parameter: (String, String)| parameter_text(parameter),
    );
    let mut i: usize = 0;
    while i < function.parameters.len()
        invariant
            i <= function.parameters@.len(),
            expected.len() == function.parameters@.len(),
            forall|j: int|
                0 <= j < expected.len() ==> #[trigger] expected[j] == parameter_text(
                    function.parameters@[j],
                ),
            text::views(parts@) == expected.take(i as int),
        decreases function.parameters@.len() - i,
    {
        let mut part = function.parameters[i].1.clone();
        part.append(" ");
        part.append(function.parameters[i].0.as_str());
        proof {
            assert(text::views(parts@.push(part)) =~= expected.take(i + 1)) by {
                assert(text::views(parts@.push(part)) =~= text::views(parts@).push(part@));
            }
        }
        parts.push(part);
        i = i + 1;
    }
    proof {
        assert(expected.take(expected.len() as int) =~= expected);
    }
    text::join(&parts, ", ")
}

/// The parameters as they are passed on.
fn argument_list_text(function: &DpiSignature) -> (list: String)
    ensures
        list@ == argument_list(*function),
{
    let mut parts: Vec<String> = Vec::new();
    let ghost expected = function.parameters@.map_values(
        |parameter: (String, String)| parameter.0@,
    );
    let mut i: usize = 0;
    while i < function.parameters.len()
        invariant
            i <= function.parameters@.len(),
            expected.len() == function.parameters@.len(),
            forall|j: int|
                0 <= j < expected.len() ==> #[trigger] expected[j] == function.parameters@[j].0@,
            text::views(parts@) == expected.take(i as int),
        decreases function.parameters@.len() - i,
    {
        let part = function.parameters[i].0.clone();
        proof {
            assert(text::views(parts@.push(part)) =~= expected.take(i + 1)) by {
                assert(text::views(parts@.push(part)) =~= text::views(parts@).push(part@));
            }
        }
        parts.push(part);
        i = i + 1;
    }
    proof {
        assert(expected.take(expected.len() as int) =~= expected);
    }
    text::join(&parts, ",")
}

/// A function pointer, and a C function that calls through it.
fn function_definition_text(function: &DpiSignature) -> (code: String)
    ensures
        code@ == function_definition(*function),
{
    let parameters = parameter_list_text(function);
    let mut code = "static void (*rust_".to_owned();
    code.append(function.name.as_str());
    code.append(")(");
    code.append(parameters.as_str());
    code.append(");\nextern \"C\" void ");
    code.append(function.name.as_str());
    code.append("(");
    code.append(parameters.as_str());
    code.append(") {\n    rust_");
    code.append(function.name.as_str());
    code.append("(");
    code.append(argument_list_text(function).as_str());
    code.append(");\n}");
    code
}

/// The statement that sets a function's pointer from its slot among the callbacks.
fn pointer_assignment_text(function: &DpiSignature, slot: usize) -> (code: String)
    ensures
        code@ == pointer_assignment(*function, slot as nat),
{
    let mut code = "   rust_".to_owned();
    code.append(function.name.as_str());
    code.append(" = ( void(*)(");
    code.append(parameter_list_text(function).as_str());
    code.append(") ) callbacks[");
    text::push_decimal(&mut code, slot as u64);
    code.append("];");
    code
}

/// The C++ code that binds the given DPI functions.
pub fn dpi_source(top_module: &str, functions: &[DpiSignature]) -> (code: String)
    ensures
        code@ == dpi_text(top_module@, functions@),
{
    let mut defined: Vec<String> = Vec::new();
    let mut assigned: Vec<String> = Vec::new();
    let mut i: usize = 0;
    while i < functions.len()
        invariant
            i <= functions@.len(),
            text::views(defined@) == definitions(functions@).take(i as int),
            text::views(assigned@) == assignments(functions@).take(i as int),
        decreases functions@.len() - i,
    {
        let definition = function_definition_text(&functions[i]);
        let assignment = pointer_assignment_text(&functions[i], i);
        proof {
            assert(definitions(functions@)[i as int] == definition@);
            assert(assignments(functions@)[i as int] == assignment@);
            assert(text::views(defined@.push(definition)) =~= text::views(defined@).push(
                definition@,
            ));
            assert(text::views(assigned@.push(assignment)) =~= text::views(assigned@).push(
                assignment@,
            ));
            assert(definitions(functions@).take(i + 1) =~= definitions(functions@).take(
                i as int,
            ).push(definition@));
            assert(assignments(functions@).take(i + 1) =~= assignments(functions@).take(
                i as int,
            ).push(assignment@));
        }
        defined.push(definition);
        assigned.push(assignment);
        i = i + 1;
    }
    proof {
        assert(definitions(functions@).take(functions@.len() as int) =~= definitions(functions@));
        assert(assignments(functions@).take(functions@.len() as int) =~= assignments(functions@));
    }
    let mut code = "#include \"svdpi.h\"\n#include \"V".to_owned();
    code.append(top_module);
    code.append("__Dpi.h\"\n#include <stdint.h>\n");
    code.append(text::join(&defined, "\n").as_str());
    code.append("\nextern \"C\" void ");
    code.append(ffi_names::DPI_INIT_CALLBACK);
    code.append("(void** callbacks) {\n");
    code.append(text::join(&assigned, "\n").as_str());
    code.append("\n}");
    code
}

/// What binding the DPI functions asks for.
#[derive(Debug)]
pub struct DpiBinding {
    /// The file to compile in, if there are any functions.
    pub file: Option<&'static str>,
    /// The code to write to that file, unless it holds it already.
    pub code: Option<String>,
}

/// Whether the file as it stands has to be written again: there are functions, and the file cannot
/// be read or holds something else than their code.
pub open spec fn dpi_is_stale(
    top_module: Seq<char>,
    functions: Seq<DpiSignature>,
    current: Option<Seq<char>>,
) -> bool {
    functions.len() > 0 && current != Some(dpi_text(top_module, functions))
}

/// The contents of a file that could be read.
pub open spec fn contents(file: Option<String>) -> Option<Seq<char>> {
    match file {
        Some(code) => Some(code@),
        None => None,
    }
}

/// Generates DPI function bindings if needed, given what the file holds at present (nothing where
/// it cannot be read).
///
/// Nothing is asked for if there are no functions.
pub fn bind_dpi_if_needed(
    top_module: &str,
    functions: &[DpiSignature],
    current: &Option<String>,
) -> (binding: DpiBinding)
    ensures
        binding.file is Some <==> functions@.len() > 0,
        binding.file matches Some(file) ==> file@ == DPI_FILE@,
        binding.code is Some <==> dpi_is_stale(top_module@, functions@, contents(*current)),
        binding.code matches Some(code) ==> code@ == dpi_text(top_module@, functions@),
{
    if functions.len() == 0 {
        return DpiBinding { file: None, code: None };
    }
    let code = dpi_source(top_module, functions);
    let fresh: bool = match current {
        Some(written) => *written == code,
        None => false,
    };
    DpiBinding { file: Some(DPI_FILE), code: if fresh { None } else { Some(code) } }
}

/// Each part stands in the joined text.
proof fn lemma_part_within_joined(parts: Seq<Seq<char>>, separator: Seq<char>, i: int)
    requires
        0 <= i < parts.len(),
    ensures
        text::contains(text::joined(parts, separator), parts[i]),
    decreases parts.len(),
{
    text::lemma_contains_itself(parts[i]);
    if parts.len() > 1 {
        let earlier = text::joined(parts.drop_last(), separator);
        if i == parts.len() - 1 {
            text::lemma_contains_within(earlier + separator, parts.last(), Seq::empty(), parts[i]);
        } else {
            lemma_part_within_joined(parts.drop_last(), separator, i);
            text::lemma_contains_within(
                Seq::empty(),
                earlier,
                separator + parts.last(),
                parts[i],
            );
            assert(text::joined(parts, separator) =~= earlier + (separator + parts.last()));
        }
    }
}

/// Each function is defined in the file, and its pointer is set from the slot that is its index: the
/// callbacks are expected in the order of the functions.
pub proof fn law_callbacks_follow_function_order(
    top_module: Seq<char>,
    functions: Seq<DpiSignature>,
    i: int,
)
    requires
        0 <= i < functions.len(),
    ensures
        text::contains(dpi_text(top_module, functions), function_definition(functions[i])),
        text::contains(dpi_text(top_module, functions), pointer_assignment(functions[i], i as nat)),
{
    let defined = text::joined(definitions(functions), "\n"@);
    let assigned = text::joined(assignments(functions), "\n"@);
    let head = "#include \"svdpi.h\"\n#include \"V"@ + top_module
        + "__Dpi.h\"\n#include <stdint.h>\n"@;
    let middle = "\nextern \"C\" void "@ + ffi_names::DPI_INIT_CALLBACK@
        + "(void** callbacks) {\n"@;
    let end = "\n}"@;
    let whole = dpi_text(top_module, functions);
    lemma_part_within_joined(definitions(functions), "\n"@, i);
    lemma_part_within_joined(assignments(functions), "\n"@, i);
    assert(definitions(functions)[i] == function_definition(functions[i]));
    assert(assignments(functions)[i] == pointer_assignment(functions[i], i as nat));
    text::lemma_contains_within(
        head,
        defined,
        middle + assigned + end,
        function_definition(functions[i]),
    );
    assert(whole =~= head + defined + (middle + assigned + end));
    text::lemma_contains_within(
        head + defined + middle,
        assigned,
        end,
        pointer_assignment(functions[i], i as nat),
    );
    assert(whole =~= head + defined + middle + assigned + end);
}

/// Binding again what was just written asks for nothing more.
pub proof fn law_written_binding_is_current(top_module: Seq<char>, functions: Seq<DpiSignature>)
    ensures
        !dpi_is_stale(top_module, functions, Some(dpi_text(top_module, functions))),
{
}

/// A binding is current exactly if the file can be read and holds the generated code: contents that
/// differ from it anywhere make it stale. Without functions there is nothing to bind.
pub proof fn law_binding_is_current_only_if_exact(
    top_module: Seq<char>,
    functions: Seq<DpiSignature>,
    file: Option<String>,
    code: Seq<char>,
    i: int,
)
    ensures
        functions.len() == 0 ==> !dpi_is_stale(top_module, functions, contents(file)),
        functions.len() > 0 ==> (dpi_is_stale(top_module, functions, contents(file)) <==> !(
        file matches Some(held) && held@ == dpi_text(top_module, functions))),
        functions.len() > 0 && code.len() != dpi_text(top_module, functions).len() ==> dpi_is_stale(
            top_module,
            functions,
            Some(code),
        ),
        functions.len() > 0 && 0 <= i < code.len() && code[i] != dpi_text(
            top_module,
            functions,
        )[i] ==> dpi_is_stale(top_module, functions, Some(code)),
        functions.len() > 0 ==> dpi_is_stale(top_module, functions, None),
{
}

/// A function that is bound anew after a change of its code is written, and then current: of two
/// lists of functions whose code differs, the file of one is stale for the other.
pub proof fn law_changed_functions_are_bound_anew(
    top_module: Seq<char>,
    functions: Seq<DpiSignature>,
    changed: Seq<DpiSignature>,
)
    requires
        changed.len() > 0,
        dpi_text(top_module, functions) != dpi_text(top_module, changed),
    ensures
        dpi_is_stale(top_module, changed, Some(dpi_text(top_module, functions))),
        !dpi_is_stale(top_module, changed, Some(dpi_text(top_module, changed))),
{
}

/// The file defines every function once, in order, with its parameters as they are declared, and
/// then sets every pointer from the slot of its index.
pub proof fn law_file_binds_every_function(
    top_module: Seq<char>,
    functions: Seq<DpiSignature>,
    parameters: Seq<Seq<char>>,
    arguments: Seq<Seq<char>>,
    defined: Seq<Seq<char>>,
    assigned: Seq<Seq<char>>,
)
    requires
        parameters.len() == functions.len(),
        arguments.len() == functions.len(),
        defined.len() == functions.len(),
        assigned.len() == functions.len(),
        forall|i: int|
            0 <= i < functions.len() ==> #[trigger] parameters[i] == text::joined(
                Seq::new(
                    functions[i].parameters@.len(),
                    |j: int|
                        functions[i].parameters@[j].1@ + " "@ + functions[i].parameters@[j].0@,
                ),
                ", "@,
            ),
        forall|i: int|
            0 <= i < functions.len() ==> #[trigger] arguments[i] == text::joined(
                Seq::new(
                    functions[i].parameters@.len(),
                    |j: int| functions[i].parameters@[j].0@,
                ),
                ","@,
            ),
        forall|i: int|
            0 <= i < functions.len() ==> #[trigger] defined[i] == "static void (*rust_"@
                + functions[i].name@ + ")("@ + parameters[i] + ");\nextern \"C\" void "@
                + functions[i].name@ + "("@ + parameters[i] + ") {\n    rust_"@
                + functions[i].name@ + "("@ + arguments[i] + ");\n}"@,
        forall|i: int|
            0 <= i < functions.len() ==> #[trigger] assigned[i] == "   rust_"@ + functions[i].name@
                + " = ( void(*)("@ + parameters[i] + ") ) callbacks["@ + text::decimal(i as nat)
                + "];"@,
    ensures
        dpi_text(top_module, functions) == "#include \"svdpi.h\"\n#include \"V"@ + top_module
            + "__Dpi.h\"\n#include <stdint.h>\n"@ + text::joined(defined, "\n"@)
            + "\nextern \"C\" void "@ + ffi_names::DPI_INIT_CALLBACK@ + "(void** callbacks) {\n"@
            + text::joined(assigned, "\n"@) + "\n}"@,
{
    assert forall|i: int| 0 <= i < functions.len() implies #[trigger] parameters[i]
        == parameter_list(functions[i]) && arguments[i] == argument_list(functions[i]) by {
        let declared = functions[i].parameters@;
        assert(Seq::new(declared.len(), |j: int| declared[j].1@ + " "@ + declared[j].0@)
            =~= declared.map_values(|parameter: (String, String)| parameter_text(parameter)));
        assert(Seq::new(declared.len(), |j: int| declared[j].0@) =~= declared.map_values(
            |parameter: (String, String)| parameter.0@,
        ));
        assert(arguments[i] == arguments[i]);
    }
    assert(defined =~= definitions(functions)) by {
        assert forall|i: int| 0 <= i < functions.len() implies defined[i] == definitions(
            functions,
        )[i] by {
            assert(parameters[i] == parameter_list(functions[i]));
            assert(defined[i] == function_definition(functions[i]));
        }
    }
    assert(assigned =~= assignments(functions)) by {
        assert forall|i: int| 0 <= i < functions.len() implies assigned[i] == assignments(
            functions,
        )[i] by {
            assert(parameters[i] == parameter_list(functions[i]));
            assert(assigned[i] == pointer_assignment(functions[i], i as nat));
        }
    }
}

} // verus!
