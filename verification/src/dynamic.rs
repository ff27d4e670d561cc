//! Models whose ports are known at run time only.

use vstd::prelude::*;
use vstd::string::*;

use crate::ffi;
use crate::ffi_names;
use crate::port::{self, Port, PortClass, PortDirection};
use crate::text;
use crate::types;
use crate::value::{self, ValueView};
use crate::wide;

pub use crate::value::VerilatorValue;

verus! {

/// What a model knows of a port.
#[derive(Debug, Clone, Copy, PartialEq, Eq, Structural)]
pub struct DynamicPortInfo {
    pub width: usize,
    pub direction: PortDirection,
}

/// A hardware model constructed at run time: its name and its ports, each name once.
pub struct DynamicVerilatedModel {
    names: Vec<String>,
    infos: Vec<DynamicPortInfo>,
    name: String,
}

/// A model's name and its ports.
#[verifier::ext_equal]
pub ghost struct ModelView {
    pub name: Seq<char>,
    pub ports: Map<Seq<char>, DynamicPortInfo>,
}

/// The table that two parallel sequences make.
spec fn table(names: Seq<Seq<char>>, infos: Seq<DynamicPortInfo>) -> Map<
    Seq<char>,
    DynamicPortInfo,
> {
    Map::new(|name: Seq<char>| names.contains(name), |name: Seq<char>| infos[names.index_of(name)])
}

/// In a sequence without repetitions an element is found where it stands.
proof fn lemma_index_of(names: Seq<Seq<char>>, i: int)
    requires
        names.no_duplicates(),
        0 <= i < names.len(),
    ensures
        names.contains(names[i]),
        names.index_of(names[i]) == i,
{
    let found = names.index_of(names[i]);
    assert(0 <= found < names.len() && names[found] == names[i]);
}

/// Appending a new name extends the table.
proof fn lemma_table_push(
    names: Seq<Seq<char>>,
    infos: Seq<DynamicPortInfo>,
    name: Seq<char>,
    info: DynamicPortInfo,
)
    requires
        names.no_duplicates(),
        names.len() == infos.len(),
        !names.contains(name),
    ensures
        names.push(name).no_duplicates(),
        table(names.push(name), infos.push(info)) == table(names, infos).insert(name, info),
{
    let longer = names.push(name);
    assert(longer.no_duplicates());
    let left = table(longer, infos.push(info));
    let right = table(names, infos).insert(name, info);
    assert forall|n: Seq<char>| left.dom().contains(n) <==> right.dom().contains(n) by {
        if longer.contains(n) {
            let i = longer.index_of(n);
            if i < names.len() {
                assert(names[i] == n);
            }
        }
        if names.contains(n) {
            let i = names.index_of(n);
            assert(longer[i] == n);
        }
        assert(longer[names.len() as int] == name);
    }
    assert forall|n: Seq<char>| left.dom().contains(n) implies left[n] == right[n] by {
        let i = longer.index_of(n);
        if n == name {
            lemma_index_of(longer, names.len() as int);
        } else {
            assert(names[i] == n);
            lemma_index_of(names, i);
        }
    }
    assert(left =~= right);
}

/// Replacing what is known of a name updates the table.
proof fn lemma_table_update(
    names: Seq<Seq<char>>,
    infos: Seq<DynamicPortInfo>,
    at: int,
    info: DynamicPortInfo,
)
    requires
        names.no_duplicates(),
        names.len() == infos.len(),
        0 <= at < names.len(),
    ensures
        table(names, infos.update(at, info)) == table(names, infos).insert(names[at], info),
{
    lemma_index_of(names, at);
    let left = table(names, infos.update(at, info));
    let right = table(names, infos).insert(names[at], info);
    assert forall|n: Seq<char>| left.dom().contains(n) implies left[n] == right[n] by {
        let i = names.index_of(n);
        assert(names[i] == n);
    }
    assert(left =~= right);
}

/// What a model knows of a declared port.
pub open spec fn info_of(port: Port) -> DynamicPortInfo {
    DynamicPortInfo { width: (port.1 + 1 - port.2) as usize, direction: port.3 }
}

/// The ports by name; of several with one name the last counts.
pub open spec fn ports_by_name(ports: Seq<Port>) -> Map<Seq<char>, DynamicPortInfo>
    decreases ports.len(),
{
    if ports.len() == 0 {
        Map::empty()
    } else {
        ports_by_name(ports.drop_last()).insert(ports.last().0@, info_of(ports.last()))
    }
}

/// Run-time port read/write error.
#[derive(Debug)]
pub enum DynamicVerilatedModelError {
    NoSuchPort {
        top_module: String,
        port: String,
        /// How the missing symbol was reported, if it came to a look-up.
        source: Option<String>,
    },
    InvalidPortWidth {
        top_module: String,
        port: String,
        width: usize,
        attempted_lower: usize,
        attempted_higher: usize,
    },
    InvalidPortDirection {
        top_module: String,
        port: String,
        direction: PortDirection,
        attempted_direction: PortDirection,
    },
}

/// What an error holds.
pub ghost enum ErrorView {
    NoSuchPort { top_module: Seq<char>, port: Seq<char>, source: Option<Seq<char>> },
    InvalidPortWidth {
        top_module: Seq<char>,
        port: Seq<char>,
        width: usize,
        attempted_lower: usize,
        attempted_higher: usize,
    },
    InvalidPortDirection {
        top_module: Seq<char>,
        port: Seq<char>,
        direction: PortDirection,
        attempted_direction: PortDirection,
    },
}

impl View for DynamicVerilatedModelError {
    type V = ErrorView;

    open spec fn view(&self) -> ErrorView {
        match self {
            DynamicVerilatedModelError::NoSuchPort { top_module, port, source } => {
                ErrorView::NoSuchPort {
                    top_module: top_module@,
                    port: port@,
                    source: match source {
                        Some(report) => Some(report@),
                        None => None,
                    },
                }
            },
            DynamicVerilatedModelError::InvalidPortWidth {
                top_module,
                port,
                width,
                attempted_lower,
                attempted_higher,
            } => ErrorView::InvalidPortWidth {
                top_module: top_module@,
                port: port@,
                width: *width,
                attempted_lower: *attempted_lower,
                attempted_higher: *attempted_higher,
            },
            DynamicVerilatedModelError::InvalidPortDirection {
                top_module,
                port,
                direction,
                attempted_direction,
            } => ErrorView::InvalidPortDirection {
                top_module: top_module@,
                port: port@,
                direction: *direction,
                attempted_direction: *attempted_direction,
            },
        }
    }
}

/// The message of an error.
pub open spec fn error_text(error: ErrorView) -> Seq<char> {
    match error {
        ErrorView::NoSuchPort { top_module, port, source } => "Port "@ + port
            + " not found on verilated module "@ + top_module
            + ": did you forget to specify it in the runtime `create_dyn_model` constructor?: "@ + (
        match source {
            Some(report) => "Some("@ + report + ")"@,
            None => "None"@,
        }),
        ErrorView::InvalidPortWidth { top_module, port, width, attempted_lower, attempted_higher } => {
            "Port "@ + port + " on verilated module "@ + top_module + " has width "@
                + text::decimal(width as nat) + ", but used as if it was in the "@ + text::decimal(
                attempted_lower as nat,
            ) + " to "@ + text::decimal(attempted_higher as nat) + " width range"@
        },
        ErrorView::InvalidPortDirection { top_module, port, direction, attempted_direction } => {
            "Port "@ + port + " on verilated module "@ + top_module + " is an "@
                + port::direction_text(direction) + " port, but was used as an "@
                + port::direction_text(attempted_direction) + " port"@
        },
    }
}

impl DynamicVerilatedModelError {
    /// The message for the user.
    pub fn message(&self) -> (rendered: String)
        ensures
            rendered@ == error_text(self@),
    {
        let mut rendered = "Port ".to_owned();
        match self {
            DynamicVerilatedModelError::NoSuchPort { top_module, port, source } => {
                rendered.append(port.as_str());
                rendered.append(" not found on verilated module ");
                rendered.append(top_module.as_str());
                rendered.append(": did you forget to specify it in the runtime `create_dyn_model` constructor?: ");
                match source {
                    Some(report) => {
                        let mut shown = "Some(".to_owned();
                        shown.append(report.as_str());
                        shown.append(")");
                        rendered.append(shown.as_str());
                    },
                    None => {
                        rendered.append("None");
                    },
                }
            },
            DynamicVerilatedModelError::InvalidPortWidth {
                top_module,
                port,
                width,
                attempted_lower,
                attempted_higher,
            } => {
                rendered.append(port.as_str());
                rendered.append(" on verilated module ");
                rendered.append(top_module.as_str());
                rendered.append(" has width ");
                text::push_decimal(&mut rendered, *width as u64);
                rendered.append(", but used as if it was in the ");
                text::push_decimal(&mut rendered, *attempted_lower as u64);
                rendered.append(" to ");
                text::push_decimal(&mut rendered, *attempted_higher as u64);
                rendered.append(" width range");
            },
            DynamicVerilatedModelError::InvalidPortDirection {
                top_module,
                port,
                direction,
                attempted_direction,
            } => {
                rendered.append(port.as_str());
                rendered.append(" on verilated module ");
                rendered.append(top_module.as_str());
                rendered.append(" is an ");
                rendered.append(direction.text());
                rendered.append(" port, but was used as an ");
                rendered.append(attempted_direction.text());
                rendered.append(" port");
            },
        }
        rendered
    }
}

/// The call that reads a port: the function's name, the C type that it returns, and the number of
/// words behind the returned pointer where the port is wide.
#[derive(Debug)]
pub struct ReadCall {
    pub symbol: String,
    pub class: PortClass,
    pub words: usize,
}

/// What came of the call that reads a port.
#[derive(Debug)]
pub enum ReadReply {
    /// The library has no such function; how that was reported.
    Missing(String),
    CData(types::CData),
    SData(types::SData),
    IData(types::IData),
    QData(types::QData),
    Words(Vec<types::WData>),
}

/// What came of looking up the function that writes a port.
#[derive(Debug)]
pub enum SymbolLookup {
    Found,
    /// The library has no such function; how that was reported.
    Missing(String),
}

/// What the function that writes a port is handed.
#[derive(Debug, PartialEq, Eq)]
pub enum PinArgument<'a> {
    CData(types::CData),
    SData(types::SData),
    IData(types::IData),
    QData(types::QData),
    /// The address of these words.
    Words(&'a [types::WData]),
}

/// What the function that writes a port is handed, in specifications.
pub ghost enum ArgumentView {
    CData(types::CData),
    SData(types::SData),
    IData(types::IData),
    QData(types::QData),
    Words(Seq<types::WData>),
}

impl<'a> View for PinArgument<'a> {
    type V = ArgumentView;

    open spec fn view(&self) -> ArgumentView {
        match self {
            PinArgument::CData(data) => ArgumentView::CData(*data),
            PinArgument::SData(data) => ArgumentView::SData(*data),
            PinArgument::IData(data) => ArgumentView::IData(*data),
            PinArgument::QData(data) => ArgumentView::QData(*data),
            PinArgument::Words(words) => ArgumentView::Words(words@),
        }
    }
}

/// The information on a port that can be read, or why it cannot.
pub open spec fn readable_port(model: ModelView, port: Seq<char>) -> Result<
    DynamicPortInfo,
    ErrorView,
> {
    if !model.ports.dom().contains(port) {
        Err(ErrorView::NoSuchPort { top_module: model.name, port, source: None })
    } else if !model.ports[port].direction.is_output() {
        Err(
            ErrorView::InvalidPortDirection {
                top_module: model.name,
                port,
                direction: model.ports[port].direction,
                attempted_direction: PortDirection::Output,
            },
        )
    } else {
        Ok(model.ports[port])
    }
}

/// Whether a reply is of the kind that the call for a port of this width gives.
pub open spec fn reply_fits(width: nat, reply: ReadReply) -> bool {
    match reply {
        ReadReply::Missing(_) => true,
        ReadReply::CData(_) => port::class_of_width(width) == PortClass::Byte,
        ReadReply::SData(_) => port::class_of_width(width) == PortClass::Short,
        ReadReply::IData(_) => port::class_of_width(width) == PortClass::Int,
        ReadReply::QData(_) => port::class_of_width(width) == PortClass::Quad,
        ReadReply::Words(words) => port::class_of_width(width) == PortClass::Wide && words@.len()
            == wide::word_count(width),
    }
}

/// What reading a port gives, for each reply.
pub open spec fn read_outcome(model: ModelView, port: Seq<char>, reply: ReadReply) -> Result<
    ValueView,
    ErrorView,
> {
    match readable_port(model, port) {
        Err(error) => Err(error),
        Ok(_) => match reply {
            ReadReply::Missing(report) => Err(
                ErrorView::NoSuchPort { top_module: model.name, port, source: Some(report@) },
            ),
            ReadReply::CData(data) => Ok(ValueView::CData(data)),
            ReadReply::SData(data) => Ok(ValueView::SData(data)),
            ReadReply::IData(data) => Ok(ValueView::IData(data)),
            ReadReply::QData(data) => Ok(ValueView::QData(data)),
            ReadReply::Words(words) => Ok(ValueView::WDataOutP(words@)),
        },
    }
}

/// The least width that the C type of a value is meant for.
pub open spec fn least_width(value: ValueView) -> usize {
    match value {
        ValueView::CData(_) => 0,
        ValueView::SData(_) => 9,
        ValueView::IData(_) => 17,
        ValueView::QData(_) => 33,
        ValueView::WDataInP(_) => 65,
        ValueView::WDataOutP(_) => 65,
    }
}

/// The lowest 64 bits of some words, the least significant word first.
pub open spec fn low_bits(words: Seq<types::WData>) -> u64 {
    if words.len() == 0 {
        0
    } else if words.len() == 1 {
        words[0] as u64
    } else {
        (words[0] + words[1] * 0x1_0000_0000) as u64
    }
}

/// The lowest 64 bits of a value.
pub open spec fn value_bits(value: ValueView) -> u64 {
    match value {
        ValueView::CData(data) => data as u64,
        ValueView::SData(data) => data as u64,
        ValueView::IData(data) => data as u64,
        ValueView::QData(data) => data,
        ValueView::WDataInP(words) => low_bits(words),
        ValueView::WDataOutP(words) => low_bits(words),
    }
}

/// The words of a value; none where it is a number.
pub open spec fn value_words(value: ValueView) -> Seq<types::WData> {
    match value {
        ValueView::WDataInP(words) => words,
        ValueView::WDataOutP(words) => words,
        _ => Seq::empty(),
    }
}

/// What the function that writes a port of this width is handed for a value: the C type goes by
/// the port, and holds as many of the value's lowest bits as it can.
pub open spec fn pin_argument(width: nat, value: ValueView) -> ArgumentView {
    match port::class_of_width(width) {
        PortClass::Byte => ArgumentView::CData((value_bits(value) % 0x100) as u8),
        PortClass::Short => ArgumentView::SData((value_bits(value) % 0x1_0000) as u16),
        PortClass::Int => ArgumentView::IData((value_bits(value) % 0x1_0000_0000) as u32),
        PortClass::Quad => ArgumentView::QData(value_bits(value)),
        PortClass::Wide => ArgumentView::Words(value_words(value)),
    }
}

/// What pinning a port gives: the port must be one of the model's; where it takes input, its
/// function must be in the library; it must be no wider than the value; and it must take input.
/// Then the function is handed the argument. A port that takes no input has no such function, and
/// is refused for its width or its direction.
pub open spec fn pin_outcome(
    model: ModelView,
    port: Seq<char>,
    value: ValueView,
    lookup: SymbolLookup,
) -> Result<ArgumentView, ErrorView> {
    let report = match lookup {
        SymbolLookup::Missing(report) => Some(report@),
        SymbolLookup::Found => None,
    };
    if !model.ports.dom().contains(port) {
        Err(ErrorView::NoSuchPort { top_module: model.name, port, source: report })
    } else if model.ports[port].direction.is_input() && lookup is Missing {
        Err(ErrorView::NoSuchPort { top_module: model.name, port, source: report })
    } else if model.ports[port].width > value::value_width(value) {
        Err(
            ErrorView::InvalidPortWidth {
                top_module: model.name,
                port,
                width: model.ports[port].width,
                attempted_lower: least_width(value),
                attempted_higher: value::value_width(value) as usize,
            },
        )
    } else if !model.ports[port].direction.is_input() {
        Err(
            ErrorView::InvalidPortDirection {
                top_module: model.name,
                port,
                direction: model.ports[port].direction,
                attempted_direction: PortDirection::Input,
            },
        )
    } else {
        Ok(pin_argument(model.ports[port].width as nat, value))
    }
}

impl View for DynamicVerilatedModel {
    type V = ModelView;

    closed spec fn view(&self) -> ModelView {
        ModelView { name: self.name@, ports: table(text::views(self.names@), self.infos@) }
    }
}

impl DynamicVerilatedModel {
    #[verifier::type_invariant]
    spec fn well_formed(self) -> bool {
        &&& self.names@.len() == self.infos@.len()
        &&& text::views(self.names@).no_duplicates()
    }

    /// A model with this name and these ports.
    pub fn new(name: &str, ports: &[Port]) -> (model: Self)
        requires
            forall|i: int|
                0 <= i < ports@.len() ==> (#[trigger] ports@[i]).2 <= ports@[i].1 < usize::MAX,
        ensures
            model@.name == name@,
            model@.ports == ports_by_name(ports@),
    {
        let mut names: Vec<String> = Vec::new();
        let mut infos: Vec<DynamicPortInfo> = Vec::new();
        proof {
            assert(table(text::views(names@), infos@) =~= Map::empty());
        }
        let mut i: usize = 0;
        while i < ports.len()
            invariant
                i <= ports@.len(),
                forall|j: int|
                    0 <= j < ports@.len() ==> (#[trigger] ports@[j]).2 <= ports@[j].1 < usize::MAX,
                names@.len() == infos@.len(),
                text::views(names@).no_duplicates(),
                table(text::views(names@), infos@) == ports_by_name(ports@.take(i as int)),
            decreases ports@.len() - i,
        {
            let port = ports[i];
            let info = DynamicPortInfo { width: port.1 + 1 - port.2, direction: port.3 };
            let wanted = port.0.to_owned();
            let at: usize = find(&names, &wanted);
            proof {
                assert(ports@.take(i + 1).drop_last() =~= ports@.take(i as int));
                assert(ports@.take(i + 1).last() == port);
            }
            if at < names.len() {
                proof {
                    lemma_table_update(text::views(names@), infos@, at as int, info);
                    assert(text::views(names@)[at as int] == port.0@);
                }
                infos.set(at, info);
            } else {
                proof {
                    lemma_table_push(text::views(names@), infos@, port.0@, info);
                    assert(text::views(names@.push(wanted)) =~= text::views(names@).push(port.0@));
                }
                names.push(wanted);
                infos.push(info);
            }
            i = i + 1;
        }
        proof {
            assert(ports@.take(ports@.len() as int) =~= ports@);
        }
        DynamicVerilatedModel { names, infos, name: name.to_owned() }
    }

    /// What is known of a port.
    fn lookup(&self, port: &String) -> (info: Option<DynamicPortInfo>)
        ensures
            info == (if self@.ports.dom().contains(port@) {
                Some(self@.ports[port@])
            } else {
                None
            }),
    {
        proof {
            use_type_invariant(self);
        }
        let at: usize = find(&self.names, port);
        if at < self.names.len() {
            proof {
                lemma_index_of(text::views(self.names@), at as int);
                assert(text::views(self.names@)[at as int] == port@);
            }
            Some(self.infos[at])
        } else {
            None
        }
    }

    /// The information on a port that can be read.
    fn readable(&self, port: &str) -> (info: Result<DynamicPortInfo, DynamicVerilatedModelError>)
        ensures
            match info {
                Ok(info) => readable_port(self@, port@) == Ok::<DynamicPortInfo, ErrorView>(info),
                Err(error) => readable_port(self@, port@) == Err::<DynamicPortInfo, ErrorView>(
                    error@,
                ),
            },
    {
        let wanted = port.to_owned();
        match self.lookup(&wanted) {
            None => Err(
                DynamicVerilatedModelError::NoSuchPort {
                    top_module: self.name.clone(),
                    port: wanted,
                    source: None,
                },
            ),
            Some(info) => {
                if !info.direction.gives_output() {
                    Err(
                        DynamicVerilatedModelError::InvalidPortDirection {
                            top_module: self.name.clone(),
                            port: wanted,
                            direction: info.direction,
                            attempted_direction: PortDirection::Output,
                        },
                    )
                } else {
                    Ok(info)
                }
            },
        }
    }

    /// The call that reads a port, or why it cannot be read.
    pub fn read_call(&self, port: &str) -> (call: Result<ReadCall, DynamicVerilatedModelError>)
        ensures
            match call {
                Ok(call) => {
                    &&& readable_port(self@, port@) matches Ok(info)
                    &&& call.symbol@ == ffi_names::read_port_name(self@.name, port@)
                    &&& call.class == port::class_of_width(info.width as nat)
                    &&& call.words == wide::word_count(info.width as nat)
                },
                Err(error) => readable_port(self@, port@) == Err::<DynamicPortInfo, ErrorView>(
                    error@,
                ),
            },
    {
        match self.readable(port) {
            Err(error) => Err(error),
            Ok(info) => Ok(
                ReadCall {
                    symbol: ffi_names::read_port(self.name.as_str(), port),
                    class: port::port_class(info.width),
                    words: wide::compute_wdata_word_count_from_width_not_msb(info.width),
                },
            ),
        }
    }

    /// If `port` is a valid port name for this model, returns the current value of the port, which
    /// the call of [`Self::read_call`] gave.
    pub fn read(&self, port: &str, reply: ReadReply) -> (read: Result<
        VerilatorValue<'static>,
        DynamicVerilatedModelError,
    >)
        requires
            readable_port(self@, port@) matches Ok(info) ==> reply_fits(info.width as nat, reply),
        ensures
            match read {
                Ok(value) => read_outcome(self@, port@, reply) == Ok::<ValueView, ErrorView>(
                    value@,
                ),
                Err(error) => read_outcome(self@, port@, reply) == Err::<ValueView, ErrorView>(
                    error@,
                ),
            },
    {
        match self.readable(port) {
            Err(error) => Err(error),
            Ok(_) => match reply {
                ReadReply::Missing(report) => Err(
                    DynamicVerilatedModelError::NoSuchPort {
                        top_module: self.name.clone(),
                        port: port.to_owned(),
                        source: Some(report),
                    },
                ),
                ReadReply::CData(data) => Ok(VerilatorValue::from(data)),
                ReadReply::SData(data) => Ok(VerilatorValue::from(data)),
                ReadReply::IData(data) => Ok(VerilatorValue::from(data)),
                ReadReply::QData(data) => Ok(VerilatorValue::from(data)),
                ReadReply::Words(words) => Ok(VerilatorValue::wide(words)),
            },
        }
    }

    /// The name of the function that writes a port.
    pub fn pin_symbol(&self, port: &str) -> (symbol: String)
        ensures
            symbol@ == ffi_names::pin_port_name(self@.name, port@),
    {
        ffi_names::pin_port(self.name.as_str(), port)
    }

    /// If `port` is a valid port name for this model, and the port's width is `<=`
    /// `value.width()`, returns what the function of [`Self::pin_symbol`] has to be handed to set
    /// the port to `value`. On an error it is not called.
    pub fn pin<'value>(
        &self,
        port: &str,
        value: &VerilatorValue<'value>,
        lookup: SymbolLookup,
    ) -> (pinned: Result<PinArgument<'value>, DynamicVerilatedModelError>)
        requires
            !(value is WDataOutP),
        ensures
            match pinned {
                Ok(argument) => pin_outcome(self@, port@, value@, lookup) == Ok::<
                    ArgumentView,
                    ErrorView,
                >(argument@),
                Err(error) => pin_outcome(self@, port@, value@, lookup) == Err::<
                    ArgumentView,
                    ErrorView,
                >(error@),
            },
    {
        let wanted = port.to_owned();
        let report: Option<String> = match lookup {
            SymbolLookup::Missing(report) => Some(report),
            SymbolLookup::Found => None,
        };
        let info = match self.lookup(&wanted) {
            None => {
                return Err(
                    DynamicVerilatedModelError::NoSuchPort {
                        top_module: self.name.clone(),
                        port: wanted,
                        source: report,
                    },
                );
            },
            Some(info) => info,
        };
        if info.direction.takes_input() && report.is_some() {
            return Err(
                DynamicVerilatedModelError::NoSuchPort {
                    top_module: self.name.clone(),
                    port: wanted,
                    source: report,
                },
            );
        }
        let too_wide: bool = match value {
            VerilatorValue::CData(_) => info.width > 8,
            VerilatorValue::SData(_) => info.width > 16,
            VerilatorValue::IData(_) => info.width > 32,
            VerilatorValue::QData(_) => info.width > 64,
            VerilatorValue::WDataInP(words) => {
                wide::compute_wdata_word_count_from_width_not_msb(info.width) > words.len()
            },
            VerilatorValue::WDataOutP(words) => {
                wide::compute_wdata_word_count_from_width_not_msb(info.width) > words.len()
            },
        };
        if too_wide {
            let attempted_lower: usize = match value {
                VerilatorValue::CData(_) => 0,
                VerilatorValue::SData(_) => 9,
                VerilatorValue::IData(_) => 17,
                VerilatorValue::QData(_) => 33,
                VerilatorValue::WDataInP(_) => 65,
                VerilatorValue::WDataOutP(_) => 65,
            };
            return Err(
                DynamicVerilatedModelError::InvalidPortWidth {
                    top_module: self.name.clone(),
                    port: wanted,
                    width: info.width,
                    attempted_lower,
                    attempted_higher: value.width(),
                },
            );
        }
        if !info.direction.takes_input() {
            return Err(
                DynamicVerilatedModelError::InvalidPortDirection {
                    top_module: self.name.clone(),
                    port: wanted,
                    direction: info.direction,
                    attempted_direction: PortDirection::Input,
                },
            );
        }
        Ok(argument_for(info.width, value))
    }
}

/// The lowest 64 bits of some words.
fn low_bits_of(words: &[types::WData]) -> (bits: u64)
    ensures
        bits == low_bits(words@),
{
    if words.len() == 0 {
        0
    } else if words.len() == 1 {
        words[0] as u64
    } else {
        words[0] as u64 + words[1] as u64 * 0x1_0000_0000
    }
}

/// What the function that writes a port of this width is handed for a value.
fn argument_for<'value>(width: usize, value: &VerilatorValue<'value>) -> (argument: PinArgument<
    'value,
>)
    requires
        !(value is WDataOutP),
        width <= value::value_width(value@),
    ensures
        argument@ == pin_argument(width as nat, value@),
{
    let bits: u64 = match value {
        VerilatorValue::CData(data) => *data as u64,
        VerilatorValue::SData(data) => *data as u64,
        VerilatorValue::IData(data) => *data as u64,
        VerilatorValue::QData(data) => *data,
        VerilatorValue::WDataInP(words) => low_bits_of(words),
        VerilatorValue::WDataOutP(words) => low_bits_of(words),
    };
    match port::port_class(width) {
        PortClass::Byte => PinArgument::CData((bits % 0x100) as u8),
        PortClass::Short => PinArgument::SData((bits % 0x1_0000) as u16),
        PortClass::Int => PinArgument::IData((bits % 0x1_0000_0000) as u32),
        PortClass::Quad => PinArgument::QData(bits),
        PortClass::Wide => match value {
            VerilatorValue::WDataInP(words) => PinArgument::Words(words),
            _ => PinArgument::QData(bits),
        },
    }
}

/// The index of a name, or the length where it does not occur.
fn find(names: &Vec<String>, wanted: &String) -> (at: usize)
    ensures
        at <= names@.len(),
        at < names@.len() ==> names@[at as int]@ == wanted@,
        at == names@.len() ==> !text::views(names@).contains(wanted@),
{
    let mut at: usize = 0;
    while at < names.len()
        invariant
            at <= names@.len(),
            forall|j: int| 0 <= j < at ==> (#[trigger] names@[j])@ != wanted@,
        decreases names@.len() - at,
    {
        if names[at] == *wanted {
            return at;
        }
        at = at + 1;
    }
    proof {
        assert forall|j: int| 0 <= j < names@.len() implies text::views(names@)[j] != wanted@ by {
            assert(names@[j]@ != wanted@);
        }
    }
    at
}

/// A value as it can be pinned: words are lent.
pub open spec fn lent(value: ValueView) -> ValueView {
    match value {
        ValueView::WDataOutP(words) => ValueView::WDataInP(words),
        _ => value,
    }
}

/// A value as an argument of the same type.
pub open spec fn as_argument(value: ValueView) -> ArgumentView {
    match value {
        ValueView::CData(data) => ArgumentView::CData(data),
        ValueView::SData(data) => ArgumentView::SData(data),
        ValueView::IData(data) => ArgumentView::IData(data),
        ValueView::QData(data) => ArgumentView::QData(data),
        ValueView::WDataInP(words) => ArgumentView::Words(words),
        ValueView::WDataOutP(words) => ArgumentView::Words(words),
    }
}

/// What was read from a port that also takes input can be pinned to it again, and hands the port
/// exactly what was read: up to 64 bits the same number, beyond the same words.
pub proof fn law_read_value_can_be_pinned(model: ModelView, port: Seq<char>, reply: ReadReply)
    requires
        model.ports.dom().contains(port),
        model.ports[port].direction is Inout,
        reply_fits(model.ports[port].width as nat, reply),
    ensures
        match read_outcome(model, port, reply) {
            Ok(value) => pin_outcome(model, port, lent(value), SymbolLookup::Found) == Ok::<
                ArgumentView,
                ErrorView,
            >(as_argument(value)),
            Err(_) => reply is Missing,
        },
{
}

/// What the ports of a model were last set to, after one of them was pinned with this outcome: the
/// function that writes the port is called on success, and no function on an error.
pub open spec fn set_ports(
    before: Map<Seq<char>, ArgumentView>,
    port: Seq<char>,
    outcome: Result<ArgumentView, ErrorView>,
) -> Map<Seq<char>, ArgumentView> {
    match outcome {
        Ok(argument) => before.insert(port, argument),
        Err(_) => before,
    }
}

/// A refused pin, for whatever reason, hands nothing to the model, so that every port stays as it
/// was; and an accepted one sets its own port and no other.
pub proof fn law_refused_pin_changes_nothing(
    model: ModelView,
    before: Map<Seq<char>, ArgumentView>,
    port: Seq<char>,
    value: ValueView,
    lookup: SymbolLookup,
    other: Seq<char>,
)
    requires
        other != port,
    ensures
        ({
            let outcome = pin_outcome(model, port, value, lookup);
            let after = set_ports(before, port, outcome);
            &&& outcome is Err ==> after == before
            &&& outcome matches Ok(argument) ==> after.dom().contains(port) && after[port]
                == argument
            &&& after.dom().contains(other) <==> before.dom().contains(other)
            &&& before.dom().contains(other) ==> after[other] == before[other]
        }),
{
}

/// The function that writes a port is handed a value of the C type that the generated file gives
/// it, whatever the type of the pinned value.
pub proof fn law_pin_hands_over_the_type_of_the_port(
    model: ModelView,
    port: Seq<char>,
    value: ValueView,
    lookup: SymbolLookup,
)
    requires
        pin_outcome(model, port, value, lookup) is Ok,
    ensures
        pin_outcome(model, port, value, lookup) matches Ok(argument) && match port::class_of_width(
            model.ports[port].width as nat,
        ) {
            PortClass::Byte => argument is CData,
            PortClass::Short => argument is SData,
            PortClass::Int => argument is IData,
            PortClass::Quad => argument is QData,
            PortClass::Wide => argument is Words,
        },
{
}

/// A number that fits the C type of its port is handed over as it is.
pub proof fn law_pin_hands_over_the_number(model: ModelView, port: Seq<char>, value: ValueView)
    requires
        pin_outcome(model, port, value, SymbolLookup::Found) is Ok,
        ({
            let width = model.ports[port].width;
            &&& width <= 8 ==> value_bits(value) < 0x100
            &&& width <= 16 ==> value_bits(value) < 0x1_0000
            &&& width <= 32 ==> value_bits(value) < 0x1_0000_0000
        }),
    ensures
        pin_outcome(model, port, value, SymbolLookup::Found) matches Ok(argument) && match argument {
            ArgumentView::CData(data) => data == value_bits(value),
            ArgumentView::SData(data) => data == value_bits(value),
            ArgumentView::IData(data) => data == value_bits(value),
            ArgumentView::QData(data) => data == value_bits(value),
            ArgumentView::Words(words) => words == value_words(value),
        },
{
}

/// Where the function of a declared port that takes input is missing, that is what is reported,
/// whatever the value.
pub proof fn law_missing_symbol_of_input_is_reported(
    model: ModelView,
    port: Seq<char>,
    value: ValueView,
    report: String,
)
    requires
        model.ports.dom().contains(port),
        model.ports[port].direction.is_input(),
    ensures
        pin_outcome(model, port, value, SymbolLookup::Missing(report)) == Err::<
            ArgumentView,
            ErrorView,
        >(ErrorView::NoSuchPort { top_module: model.name, port, source: Some(report@) }),
{
}

/// A declared port that gives output only is refused as an input for its direction, if the value
/// is wide enough: the library has no function that writes it, but that is not what is reported.
pub proof fn law_output_is_refused_for_its_direction(
    model: ModelView,
    port: Seq<char>,
    value: ValueView,
    lookup: SymbolLookup,
)
    requires
        model.ports.dom().contains(port),
        model.ports[port].direction is Output,
        model.ports[port].width <= value::value_width(value),
    ensures
        pin_outcome(model, port, value, lookup) == Err::<ArgumentView, ErrorView>(
            ErrorView::InvalidPortDirection {
                top_module: model.name,
                port,
                direction: PortDirection::Output,
                attempted_direction: PortDirection::Input,
            },
        ),
{
}

/// What reading a port gives, where `design` holds for each port what its function replies.
pub open spec fn read_from(
    model: ModelView,
    design: Map<Seq<char>, ReadReply>,
    port: Seq<char>,
) -> Result<ValueView, ErrorView> {
    read_outcome(model, port, design[port])
}

/// What the functions of the ports reply after one of the ports was read, with success or without.
/// The function that reads a port returns it and assigns nothing, so that every reply stays.
pub open spec fn after_read(design: Map<Seq<char>, ReadReply>, port: Seq<char>) -> Map<
    Seq<char>,
    ReadReply,
> {
    design
}

/// What the functions of the ports reply after some ports were read, one after the other.
pub open spec fn after_reads(design: Map<Seq<char>, ReadReply>, reads: Seq<Seq<char>>) -> Map<
    Seq<char>,
    ReadReply,
>
    decreases reads.len(),
{
    if reads.len() == 0 {
        design
    } else {
        after_read(after_reads(design, reads.drop_last()), reads.last())
    }
}

/// Reading a port again gives the same, value or error, whatever ports were read in between.
pub proof fn law_reading_again_gives_the_same(
    model: ModelView,
    design: Map<Seq<char>, ReadReply>,
    port: Seq<char>,
    reads: Seq<Seq<char>>,
)
    ensures
        read_from(model, after_reads(after_read(design, port), reads), port) == read_from(
            model,
            design,
            port,
        ),
    decreases reads.len(),
{
    if reads.len() > 0 {
        law_reading_again_gives_the_same(model, design, port, reads.drop_last());
    }
}

/// The same reply gives the same result.
pub proof fn law_same_reply_reads_the_same(
    model: ModelView,
    port: Seq<char>,
    first: ReadReply,
    second: ReadReply,
)
    requires
        same_reply(first, second),
    ensures
        read_outcome(model, port, first) == read_outcome(model, port, second),
{
}

/// Whether two replies hold the same.
pub open spec fn same_reply(first: ReadReply, second: ReadReply) -> bool {
    match (first, second) {
        (ReadReply::Missing(a), ReadReply::Missing(b)) => a@ == b@,
        (ReadReply::CData(a), ReadReply::CData(b)) => a == b,
        (ReadReply::SData(a), ReadReply::SData(b)) => a == b,
        (ReadReply::IData(a), ReadReply::IData(b)) => a == b,
        (ReadReply::QData(a), ReadReply::QData(b)) => a == b,
        (ReadReply::Words(a), ReadReply::Words(b)) => a@ == b@,
        _ => false,
    }
}

/// A value that was read is exactly wide enough for its port: it holds the port's bits, and the next
/// narrower C type, or one word fewer, would not.
pub proof fn law_read_value_fits_port(model: ModelView, port: Seq<char>, reply: ReadReply)
    requires
        readable_port(model, port) is Ok,
        reply_fits(model.ports[port].width as nat, reply),
        !(reply is Missing),
    ensures
        read_outcome(model, port, reply) matches Ok(value) && {
            let width = model.ports[port].width as nat;
            &&& width <= value::value_width(value)
            &&& least_width(value) <= width
            &&& value is WDataOutP ==> value::value_width(value) < width + 32
        },
{
}

/// Unless another port of the same name follows, a declared port is known by its width and its
/// direction.
pub proof fn law_declared_port_is_known(ports: Seq<Port>, i: int)
    requires
        0 <= i < ports.len(),
        forall|j: int| i < j < ports.len() ==> (#[trigger] ports[j]).0@ != ports[i].0@,
    ensures
        ports_by_name(ports).dom().contains(ports[i].0@),
        ports_by_name(ports)[ports[i].0@] == info_of(ports[i]),
    decreases ports.len(),
{
    if i < ports.len() - 1 {
        let earlier = ports.drop_last();
        assert(ports[ports.len() - 1].0@ != ports[i].0@);
        assert forall|j: int| i < j < earlier.len() implies (#[trigger] earlier[j]).0@
            != earlier[i].0@ by {
            assert(ports[j].0@ != ports[i].0@);
        }
        law_declared_port_is_known(earlier, i);
    }
}

/// A model takes a declared port to be as wide as the generated file does, so that both pick the
/// same C type for it.
pub proof fn law_model_agrees_with_file(port: Port)
    requires
        port.2 <= port.1 < usize::MAX,
    ensures
        port::well_spanned(port),
        info_of(port).width == port::port_width(port),
        port::class_of_width(info_of(port).width as nat) == port::class_of_width(
            port::port_width(port),
        ),
{
}

/// Whenever a wide port may be pinned, the generated function copies all bits of the port, and no
/// byte from beyond the words that it is given.
pub proof fn law_wide_pin_stays_within_value(
    model: ModelView,
    port: Seq<char>,
    words: Seq<types::WData>,
)
    requires
        model.ports.dom().contains(port),
        model.ports[port].width > 64,
        pin_outcome(model, port, ValueView::WDataInP(words), SymbolLookup::Found) is Ok,
    ensures
        model.ports[port].width <= 8 * ffi::copied_bytes(model.ports[port].width as nat),
        ffi::copied_bytes(model.ports[port].width as nat) <= 4 * words.len(),
{
}

/// A function that a library must have, and what is said where it has not.
#[derive(Debug)]
pub struct SymbolRequest {
    pub symbol: String,
    pub failure: String,
}

/// A function that a library must have, in specifications.
pub struct SymbolView {
    pub symbol: Seq<char>,
    pub failure: Seq<char>,
}

impl View for SymbolRequest {
    type V = SymbolView;

    open spec fn view(&self) -> SymbolView {
        SymbolView { symbol: self.symbol@, failure: self.failure@ }
    }
}

/// What is said where a library lacks a function of a module.
fn missing_symbol(what: &str, name: &str) -> (message: String)
    ensures
        message@ == "Failed to load "@ + what@ + " for module "@ + name@,
{
    let mut message = "Failed to load ".to_owned();
    message.append(what);
    message.append(" for module ");
    message.append(name);
    message
}

/// The functions that make up a model.
#[derive(Debug)]
pub struct ModelSymbols {
    pub constructor: SymbolRequest,
    pub destructor: SymbolRequest,
    pub evaluator: SymbolRequest,
}

/// The functions that make up a model of the module `name`. They are looked up in the order of the
/// fields.
pub fn model_symbols(name: &str) -> (symbols: ModelSymbols)
    ensures
        symbols.constructor@ == (SymbolView {
            symbol: ffi_names::new_top_name(name@),
            failure: "Failed to load "@ + "constructor"@ + " for module "@ + name@,
        }),
        symbols.destructor@ == (SymbolView {
            symbol: ffi_names::delete_top_name(name@),
            failure: "Failed to load "@ + "destructor"@ + " for module "@ + name@,
        }),
        symbols.evaluator@ == (SymbolView {
            symbol: ffi_names::top_eval_name(name@),
            failure: "Failed to load "@ + "evalulator"@ + " for module "@ + name@,
        }),
{
    ModelSymbols {
        constructor: SymbolRequest {
            symbol: ffi_names::new_top(name),
            failure: missing_symbol("constructor", name),
        },
        destructor: SymbolRequest {
            symbol: ffi_names::delete_top(name),
            failure: missing_symbol("destructor", name),
        },
        evaluator: SymbolRequest {
            symbol: ffi_names::top_eval(name),
            failure: missing_symbol("evalulator", name),
        },
    }
}

/// Reading gives what the function of the port replied: the same number in the same C type, or the
/// same words in the same order. It gives no value, and names the port, where the port is not
/// declared, takes input only, or has no function.
pub proof fn law_read_value_is_the_reply(model: ModelView, port: Seq<char>, reply: ReadReply)
    ensures
        ({
            let known = model.ports.dom().contains(port);
            let info = model.ports[port];
            let outcome = read_outcome(model, port, reply);
            &&& !known ==> outcome == Err::<ValueView, ErrorView>(
                ErrorView::NoSuchPort { top_module: model.name, port, source: None },
            )
            &&& known && info.direction == PortDirection::Input ==> outcome == Err::<
                ValueView,
                ErrorView,
            >(
                ErrorView::InvalidPortDirection {
                    top_module: model.name,
                    port,
                    direction: PortDirection::Input,
                    attempted_direction: PortDirection::Output,
                },
            )
            &&& known && info.direction != PortDirection::Input ==> match reply {
                ReadReply::Missing(report) => outcome == Err::<ValueView, ErrorView>(
                    ErrorView::NoSuchPort { top_module: model.name, port, source: Some(report@) },
                ),
                ReadReply::CData(replied) => outcome matches Ok(ValueView::CData(data)) && data
                    == replied,
                ReadReply::SData(replied) => outcome matches Ok(ValueView::SData(data)) && data
                    == replied,
                ReadReply::IData(replied) => outcome matches Ok(ValueView::IData(data)) && data
                    == replied,
                ReadReply::QData(replied) => outcome matches Ok(ValueView::QData(data)) && data
                    == replied,
                ReadReply::Words(replied) => outcome matches Ok(ValueView::WDataOutP(words))
                    && words.len() == replied@.len() && (forall|i: int|
                    0 <= i < words.len() ==> #[trigger] words[i] == replied@[i]),
            }
        }),
{
}

/// A port can be read exactly if it is declared and gives output; the call then is of the function
/// that the file has for it, and returns the C type that holds the port's width.
pub proof fn law_readable_ports(model: ModelView, port: Seq<char>, width: nat, reply: ReadReply)
    ensures
        readable_port(model, port) is Ok <==> model.ports.dom().contains(port)
            && model.ports[port].direction != PortDirection::Input,
        readable_port(model, port) matches Ok(info) ==> info == model.ports[port],
        reply_fits(width, reply) <==> match reply {
            ReadReply::Missing(_) => true,
            ReadReply::CData(_) => width <= 8,
            ReadReply::SData(_) => 8 < width <= 16,
            ReadReply::IData(_) => 16 < width <= 32,
            ReadReply::QData(_) => 32 < width <= 64,
            ReadReply::Words(words) => 64 < width && words@.len() * 32 < width + 32 && width
                <= words@.len() * 32,
        },
{
}

/// A port may be pinned exactly if it is declared, takes input, has its function in the library and
/// is no wider than the value. Then its function is handed the value itself: the lowest bits that
/// the C type of the port holds, or, beyond 64 bits, all the words in order.
pub proof fn law_pin_hands_over_the_value(
    model: ModelView,
    port: Seq<char>,
    value: ValueView,
    lookup: SymbolLookup,
    width: nat,
    bits: int,
)
    requires
        model.ports.dom().contains(port) ==> width == model.ports[port].width,
        bits == match value {
            ValueView::CData(data) => data as int,
            ValueView::SData(data) => data as int,
            ValueView::IData(data) => data as int,
            ValueView::QData(data) => data as int,
            ValueView::WDataInP(words) | ValueView::WDataOutP(words) => (if words.len() > 0 {
                words[0] as int
            } else {
                0
            }) + (if words.len() > 1 {
                words[1] * 0x1_0000_0000
            } else {
                0
            }),
        },
    ensures
        ({
            let holds = match value {
                ValueView::CData(_) => 8,
                ValueView::SData(_) => 16,
                ValueView::IData(_) => 32,
                ValueView::QData(_) => 64,
                ValueView::WDataInP(words) | ValueView::WDataOutP(words) => 32 * words.len(),
            };
            let outcome = pin_outcome(model, port, value, lookup);
            &&& outcome is Ok <==> model.ports.dom().contains(port) && model.ports[port].direction
                != PortDirection::Output && lookup is Found && width <= holds
            &&& outcome matches Ok(argument) ==> match argument {
                ArgumentView::CData(data) => width <= 8 && data == bits % 0x100,
                ArgumentView::SData(data) => 8 < width <= 16 && data == bits % 0x1_0000,
                ArgumentView::IData(data) => 16 < width <= 32 && data == bits % 0x1_0000_0000,
                ArgumentView::QData(data) => 32 < width <= 64 && data == bits,
                ArgumentView::Words(handed) => 64 < width && match value {
                    ValueView::WDataInP(words) | ValueView::WDataOutP(words) => handed.len()
                        == words.len() && (forall|i: int|
                        0 <= i < words.len() ==> #[trigger] handed[i] == words[i]),
                    _ => false,
                },
            }
        }),
{
}

/// A refused pin says why: an undeclared port or a missing function with the report of the loader,
/// a value that is too narrow with the width of the port and the range of the value, and an output
/// with its direction.
pub proof fn law_refused_pin_says_why(
    model: ModelView,
    port: Seq<char>,
    value: ValueView,
    lookup: SymbolLookup,
    report: Option<Seq<char>>,
    lower: usize,
    higher: nat,
)
    requires
        report == match lookup {
            SymbolLookup::Missing(report) => Some(report@),
            SymbolLookup::Found => None,
        },
        (lower as int, higher as int) == match value {
            ValueView::CData(_) => (0int, 8int),
            ValueView::SData(_) => (9, 16),
            ValueView::IData(_) => (17, 32),
            ValueView::QData(_) => (33, 64),
            ValueView::WDataInP(words) => (65, 32 * words.len() as int),
            ValueView::WDataOutP(words) => (65, 32 * words.len() as int),
        },
    ensures
        pin_outcome(model, port, value, lookup) matches Err(error) ==> {
            let known = model.ports.dom().contains(port);
            let info = model.ports[port];
            let unreachable = !known || (info.direction != PortDirection::Output && report is Some);
            if unreachable {
                error == (ErrorView::NoSuchPort { top_module: model.name, port, source: report })
            } else if info.width > higher {
                error == (ErrorView::InvalidPortWidth {
                    top_module: model.name,
                    port,
                    width: info.width,
                    attempted_lower: lower,
                    attempted_higher: higher as usize,
                })
            } else {
                info.direction == PortDirection::Output && error == (
                ErrorView::InvalidPortDirection {
                    top_module: model.name,
                    port,
                    direction: PortDirection::Output,
                    attempted_direction: PortDirection::Input,
                })
            }
        },
{
}

/// A model knows the declared ports and no others.
pub proof fn law_only_declared_ports_are_known(ports: Seq<Port>, name: Seq<char>)
    ensures
        ports_by_name(ports).dom().contains(name) <==> exists|i: int|
            0 <= i < ports.len() && (#[trigger] ports[i]).0@ == name,
    decreases ports.len(),
{
    if ports.len() > 0 {
        let earlier = ports.drop_last();
        law_only_declared_ports_are_known(earlier, name);
        if exists|i: int| 0 <= i < earlier.len() && (#[trigger] earlier[i]).0@ == name {
            let i = choose|i: int| 0 <= i < earlier.len() && (#[trigger] earlier[i]).0@ == name;
            assert(ports[i].0@ == name);
        }
        if exists|i: int| 0 <= i < ports.len() && (#[trigger] ports[i]).0@ == name {
            let i = choose|i: int| 0 <= i < ports.len() && (#[trigger] ports[i]).0@ == name;
            if i < earlier.len() {
                assert(earlier[i].0@ == name);
            }
        }
        if ports.last().0@ == name {
            assert(ports[ports.len() - 1].0@ == name);
        }
    }
}

/// A declared port is known with the number of its bit indices and with its direction.
pub proof fn law_port_is_known_as_declared(port: Port)
    requires
        port.2 <= port.1 < usize::MAX,
    ensures
        info_of(port).width == port.1 - port.2 + 1,
        info_of(port).direction == port.3,
{
}

/// An error and an argument hold in specifications what they hold.
pub proof fn law_views_hold_every_field(error: DynamicVerilatedModelError, argument: PinArgument)
    ensures
        match error {
            DynamicVerilatedModelError::NoSuchPort { top_module, port, source } => error@
                matches ErrorView::NoSuchPort { top_module: t, port: p, source: s } && t
                == top_module@ && p == port@ && (source is Some <==> s is Some) && (
            source matches Some(report) ==> s == Some(report@)),
            DynamicVerilatedModelError::InvalidPortWidth {
                top_module,
                port,
                width,
                attempted_lower,
                attempted_higher,
            } => error@ == (ErrorView::InvalidPortWidth {
                top_module: top_module@,
                port: port@,
                width,
                attempted_lower,
                attempted_higher,
            }),
            DynamicVerilatedModelError::InvalidPortDirection {
                top_module,
                port,
                direction,
                attempted_direction,
            } => error@ == (ErrorView::InvalidPortDirection {
                top_module: top_module@,
                port: port@,
                direction,
                attempted_direction,
            }),
        },
        match argument {
            PinArgument::CData(data) => argument@ == ArgumentView::CData(data),
            PinArgument::SData(data) => argument@ == ArgumentView::SData(data),
            PinArgument::IData(data) => argument@ == ArgumentView::IData(data),
            PinArgument::QData(data) => argument@ == ArgumentView::QData(data),
            PinArgument::Words(words) => argument@ == ArgumentView::Words(words@),
        },
{
}

/// The message of an error names the port, the module, and what is wrong with the use.
pub proof fn law_message_tells_the_error(
    top_module: Seq<char>,
    port: Seq<char>,
    report: Seq<char>,
    width: usize,
    lower: usize,
    higher: usize,
    direction: PortDirection,
    attempted: PortDirection,
)
    ensures
        error_text(ErrorView::NoSuchPort { top_module, port, source: None }) == "Port "@ + port
            + " not found on verilated module "@ + top_module
            + ": did you forget to specify it in the runtime `create_dyn_model` constructor?: "@
            + "None"@,
        error_text(ErrorView::NoSuchPort { top_module, port, source: Some(report) }) == "Port "@
            + port + " not found on verilated module "@ + top_module
            + ": did you forget to specify it in the runtime `create_dyn_model` constructor?: "@ + (
        "Some("@ + report + ")"@),
        error_text(
            ErrorView::InvalidPortWidth {
                top_module,
                port,
                width,
                attempted_lower: lower,
                attempted_higher: higher,
            },
        ) == "Port "@ + port + " on verilated module "@ + top_module + " has width "@
            + text::decimal(width as nat) + ", but used as if it was in the "@ + text::decimal(
            lower as nat,
        ) + " to "@ + text::decimal(higher as nat) + " width range"@,
        error_text(
            ErrorView::InvalidPortDirection {
                top_module,
                port,
                direction,
                attempted_direction: attempted,
            },
        ) == "Port "@ + port + " on verilated module "@ + top_module + " is an "@
            + port::direction_text(direction) + " port, but was used as an "@
            + port::direction_text(attempted) + " port"@,
{
}

/// A function that a library must have is known by its name and by what is said where it is missing.
pub proof fn law_symbol_request_is_its_name_and_failure(request: SymbolRequest)
    ensures
        request@.symbol == request.symbol@,
        request@.failure == request.failure@,
{
}

} // verus!
