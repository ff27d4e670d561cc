//! Ports: directions, widths, and the C type that carries a port of a given width.

use vstd::prelude::*;

verus! {

/// The direction of a port, seen from the module.
#[derive(Debug, Clone, Copy, PartialEq, Eq, Hash, PartialOrd, Ord, Structural)]
pub enum PortDirection {
    Input,
    Output,
    Inout,
}

/// The name of a direction.
pub open spec fn direction_text(direction: PortDirection) -> Seq<char> {
    match direction {
        PortDirection::Input => "input"@,
        PortDirection::Output => "output"@,
        PortDirection::Inout => "inout"@,
    }
}

impl PortDirection {
    /// Whether a value can be written to such a port.
    pub open spec fn is_input(self) -> bool {
        self is Input || self is Inout
    }

    /// Whether a value can be read from such a port.
    pub open spec fn is_output(self) -> bool {
        self is Output || self is Inout
    }

    /// The name of the direction.
    pub fn text(&self) -> (name: &'static str)
        ensures
            name@ == direction_text(*self),
    {
        match self {
            PortDirection::Input => "input",
            PortDirection::Output => "output",
            PortDirection::Inout => "inout",
        }
    }

    /// Whether a value can be written to such a port.
    pub(crate) fn takes_input(&self) -> (yes: bool)
        ensures
            yes == self.is_input(),
    {
        match self {
            PortDirection::Input | PortDirection::Inout => true,
            PortDirection::Output => false,
        }
    }

    /// Whether a value can be read from such a port.
    pub(crate) fn gives_output(&self) -> (yes: bool)
        ensures
            yes == self.is_output(),
    {
        match self {
            PortDirection::Output | PortDirection::Inout => true,
            PortDirection::Input => false,
        }
    }
}

/// A port of a module: its name, its most and its least significant bit index, its direction.
pub type Port<'a> = (&'a str, usize, usize, PortDirection);

/// Whether the bit indices of a port span a width that can be counted.
pub open spec fn well_spanned(port: Port) -> bool {
    port.2 <= port.1 && port.1 - port.2 < usize::MAX
}

/// The number of bits of a port.
pub open spec fn port_width(port: Port) -> nat {
    (port.1 - port.2 + 1) as nat
}

/// The C type that Verilator picks for a port.
#[derive(Debug, Clone, Copy, PartialEq, Eq, Hash, Structural)]
pub enum PortClass {
    /// `CData`
    Byte,
    /// `SData`
    Short,
    /// `IData`
    Int,
    /// `QData`
    Quad,
    /// An array of `WData`
    Wide,
}

/// The C type for a width: the narrowest of 8, 16, 32 and 64 bits that holds it, or words.
pub open spec fn class_of_width(width: nat) -> PortClass {
    if width <= 8 {
        PortClass::Byte
    } else if width <= 16 {
        PortClass::Short
    } else if width <= 32 {
        PortClass::Int
    } else if width <= 64 {
        PortClass::Quad
    } else {
        PortClass::Wide
    }
}

/// The C type for a width.
pub fn port_class(width: usize) -> (class: PortClass)
    ensures
        class == class_of_width(width as nat),
{
    if width <= 8 {
        PortClass::Byte
    } else if width <= 16 {
        PortClass::Short
    } else if width <= 32 {
        PortClass::Int
    } else if width <= 64 {
        PortClass::Quad
    } else {
        PortClass::Wide
    }
}

/// The C type of a port is the narrowest of 8, 16, 32 and 64 bits that holds its width, and words
/// beyond.
pub proof fn law_class_is_the_narrowest(width: nat)
    ensures
        class_of_width(width) is Byte <==> width <= 8,
        class_of_width(width) is Short <==> 8 < width <= 16,
        class_of_width(width) is Int <==> 16 < width <= 32,
        class_of_width(width) is Quad <==> 32 < width <= 64,
        class_of_width(width) is Wide <==> 64 < width,
{
}

/// A port is as wide as it has bit indices: a port of one index has one bit, and each index more at
/// either end adds one.
pub proof fn law_width_counts_the_indices(port: Port, longer: Port)
    requires
        port.2 <= port.1,
    ensures
        port.2 == port.1 ==> port_width(port) == 1,
        longer.1 == port.1 + 1 && longer.2 == port.2 ==> port_width(longer) == port_width(port) + 1,
        longer.1 == port.1 && longer.2 + 1 == port.2 ==> port_width(longer) == port_width(port) + 1,
        port_width(port) <= usize::MAX ==> well_spanned(port),
{
}

/// A port takes input, gives output, or does both; the names say which.
pub proof fn law_direction_is_what_its_name_says(direction: PortDirection)
    ensures
        direction.is_input() <==> direction != PortDirection::Output,
        direction.is_output() <==> direction != PortDirection::Input,
        direction_text(direction) == "input"@ || direction_text(direction) == "output"@
            || direction_text(direction) == "inout"@,
        direction == PortDirection::Input <==> direction_text(direction) == "input"@,
        direction == PortDirection::Output <==> direction_text(direction) == "output"@,
        direction == PortDirection::Inout <==> direction_text(direction) == "inout"@,
{
    reveal_strlit("input");
    reveal_strlit("output");
    reveal_strlit("inout");
    assert("input"@[2] == 'p');
    assert("inout"@[2] == 'o');
    assert("output"@[0] == 'o');
}

} // verus!
