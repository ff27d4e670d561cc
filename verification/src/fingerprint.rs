//! A number that tells apart the libraries of one module by their ports and their configuration.

use std::collections::hash_map::DefaultHasher;
use std::hash::Hasher;

use vstd::prelude::*;
use vstd::string::*;

use crate::config::{CxxStandard, VerilatedModelConfig, Waveform};
use crate::port::{Port, PortDirection};
use crate::text;

verus! {

/// What hashing a number feeds to the hasher.
pub open spec fn number_input(n: nat) -> Seq<Seq<u8>> {
    seq![vstd::bytes::spec_u64_to_le_bytes(n as u64)]
}

/// What hashing a text feeds to the hasher: its bytes and a byte that occurs in no text.
pub open spec fn text_input(s: Seq<char>) -> Seq<Seq<u8>> {
    seq![vstd::utf8::encode_utf8(s), seq![0xffu8]]
}

/// The position of a direction among the directions.
pub open spec fn direction_index(direction: PortDirection) -> nat {
    match direction {
        PortDirection::Input => 0,
        PortDirection::Output => 1,
        PortDirection::Inout => 2,
    }
}

/// What hashing a port feeds to the hasher.
pub open spec fn port_input(port: Port) -> Seq<Seq<u8>> {
    text_input(port.0@) + number_input(port.1 as nat) + number_input(port.2 as nat) + number_input(
        direction_index(port.3),
    )
}

/// What hashing some ports feeds to the hasher, one after the other.
pub open spec fn each_port_input(ports: Seq<Port>) -> Seq<Seq<u8>>
    decreases ports.len(),
{
    if ports.len() == 0 {
        Seq::empty()
    } else {
        each_port_input(ports.drop_last()) + port_input(ports.last())
    }
}

/// What hashing some texts feeds to the hasher, one after the other.
pub open spec fn each_text_input(texts: Seq<String>) -> Seq<Seq<u8>>
    decreases texts.len(),
{
    if texts.len() == 0 {
        Seq::empty()
    } else {
        each_text_input(texts.drop_last()) + text_input(texts.last()@)
    }
}

/// What hashing an optional waveform feeds to the hasher.
pub open spec fn waveform_input(waveform: Option<Waveform>) -> Seq<Seq<u8>> {
    match waveform {
        None => number_input(0),
        Some(Waveform::Vcd) => number_input(1) + number_input(0),
        Some(Waveform::Fst) => number_input(1) + number_input(1),
    }
}

/// The position of a standard among the standards.
pub open spec fn standard_index(standard: CxxStandard) -> nat {
    match standard {
        CxxStandard::Cxx98 => 0,
        CxxStandard::Cxx11 => 1,
        CxxStandard::Cxx14 => 2,
        CxxStandard::Cxx17 => 3,
        CxxStandard::Cxx20 => 4,
        CxxStandard::Cxx23 => 5,
        CxxStandard::Cxx26 => 6,
    }
}

/// What hashing an optional standard feeds to the hasher.
pub open spec fn standard_input(standard: Option<CxxStandard>) -> Seq<Seq<u8>> {
    match standard {
        None => number_input(0),
        Some(standard) => number_input(1) + number_input(standard_index(standard)),
    }
}

/// What hashing a configuration feeds to the hasher.
pub open spec fn config_input(config: VerilatedModelConfig) -> Seq<Seq<u8>> {
    number_input(config.verilator_optimization as nat) + number_input(
        config.ignored_warnings@.len(),
    ) + each_text_input(config.ignored_warnings@) + waveform_input(config.enable_tracing)
        + text_input(config.cxx_executable@) + standard_input(config.cxx_standard)
}

/// What hashing ports and a configuration feeds to the hasher.
pub open spec fn request_input(ports: Seq<Port>, config: VerilatedModelConfig) -> Seq<Seq<u8>> {
    number_input(ports.len()) + each_port_input(ports) + config_input(config)
}

/// The hash of ports and a configuration.
pub open spec fn request_hash(ports: Seq<Port>, config: VerilatedModelConfig) -> u64 {
    <DefaultHasher as vstd::std_specs::hash::DefaultHasherAdditionalSpecFns>::spec_finish(
        request_input(ports, config),
    )
}

/// Feeds a number to the hasher.
fn write_number(hasher: &mut DefaultHasher, n: usize)
    ensures
        final(hasher)@ == old(hasher)@ + number_input(n as nat),
{
    let bytes = vstd::bytes::u64_to_le_bytes(n as u64);
    hasher.write(bytes.as_slice());
    proof {
        assert(hasher@ =~= old(hasher)@ + number_input(n as nat));
    }
}

/// Feeds a text to the hasher.
fn write_text(hasher: &mut DefaultHasher, s: &str)
    ensures
        final(hasher)@ == old(hasher)@ + text_input(s@),
{
    hasher.write(s.as_bytes());
    let end: [u8; 1] = [0xff];
    hasher.write(end.as_slice());
    proof {
        assert(end@ =~= seq![0xffu8]);
        assert(hasher@ =~= old(hasher)@ + text_input(s@));
    }
}

/// Feeds a port to the hasher.
fn write_port(hasher: &mut DefaultHasher, port: Port)
    ensures
        final(hasher)@ == old(hasher)@ + port_input(port),
{
    write_text(hasher, port.0);
    write_number(hasher, port.1);
    write_number(hasher, port.2);
    write_number(
        hasher,
        match port.3 {
            PortDirection::Input => 0,
            PortDirection::Output => 1,
            PortDirection::Inout => 2,
        },
    );
    proof {
        assert(hasher@ =~= old(hasher)@ + port_input(port));
    }
}

/// Feeds a configuration to the hasher.
fn write_config(hasher: &mut DefaultHasher, config: &VerilatedModelConfig)
    ensures
        final(hasher)@ == old(hasher)@ + config_input(*config),
{
    let ghost before = hasher@;
    write_number(hasher, config.verilator_optimization);
    write_number(hasher, config.ignored_warnings.len());
    let ghost head = number_input(config.verilator_optimization as nat) + number_input(
        config.ignored_warnings@.len(),
    );
    let mut i: usize = 0;
    proof {
        assert(hasher@ =~= before + (head + each_text_input(config.ignored_warnings@.take(0))));
    }
    while i < config.ignored_warnings.len()
        invariant
            i <= config.ignored_warnings@.len(),
            hasher@ == before + (head + each_text_input(config.ignored_warnings@.take(i as int))),
        decreases config.ignored_warnings@.len() - i,
    {
        write_text(hasher, config.ignored_warnings[i].as_str());
        proof {
            let longer = config.ignored_warnings@.take(i + 1);
            assert(longer.drop_last() =~= config.ignored_warnings@.take(i as int));
            assert(hasher@ =~= before + (head + each_text_input(longer)));
        }
        i = i + 1;
    }
    proof {
        assert(config.ignored_warnings@.take(config.ignored_warnings@.len() as int)
            =~= config.ignored_warnings@);
    }
    match config.enable_tracing {
        None => {
            write_number(hasher, 0);
        },
        Some(waveform) => {
            write_number(hasher, 1);
            write_number(
                hasher,
                match waveform {
                    Waveform::Vcd => 0,
                    Waveform::Fst => 1,
                },
            );
        },
    }
    let ghost middle = head + each_text_input(config.ignored_warnings@) + waveform_input(
        config.enable_tracing,
    );
    proof {
        assert(hasher@ =~= before + middle);
    }
    write_text(hasher, config.cxx_executable.as_str());
    match config.cxx_standard {
        None => {
            write_number(hasher, 0);
        },
        Some(standard) => {
            write_number(hasher, 1);
            write_number(
                hasher,
                match standard {
                    CxxStandard::Cxx98 => 0,
                    CxxStandard::Cxx11 => 1,
                    CxxStandard::Cxx14 => 2,
                    CxxStandard::Cxx17 => 3,
                    CxxStandard::Cxx20 => 4,
                    CxxStandard::Cxx23 => 5,
                    CxxStandard::Cxx26 => 6,
                },
            );
        },
    }
    proof {
        assert(hasher@ =~= before + config_input(*config));
    }
}

/// The hash of ports and a configuration.
pub fn fingerprint(ports: &[Port], config: &VerilatedModelConfig) -> (hash: u64)
    ensures
        hash == request_hash(ports@, *config),
{
    let mut hasher = DefaultHasher::new();
    write_number(&mut hasher, ports.len());
    let ghost head = number_input(ports@.len());
    let mut i: usize = 0;
    proof {
        assert(hasher@ =~= head + each_port_input(ports@.take(0)));
    }
    while i < ports.len()
        invariant
            i <= ports@.len(),
            hasher@ == head + each_port_input(ports@.take(i as int)),
        decreases ports@.len() - i,
    {
        write_port(&mut hasher, ports[i]);
        proof {
            let longer = ports@.take(i + 1);
            assert(longer.drop_last() =~= ports@.take(i as int));
            assert(hasher@ =~= head + each_port_input(longer));
        }
        i = i + 1;
    }
    proof {
        assert(ports@.take(ports@.len() as int) =~= ports@);
    }
    write_config(&mut hasher, config);
    proof {
        assert(hasher@ =~= request_input(ports@, *config));
    }
    hasher.finish()
}

/// Whether two signatures have the same ports in the same order.
pub open spec fn same_ports(a: Seq<Port>, b: Seq<Port>) -> bool {
    &&& a.len() == b.len()
    &&& forall|i: int|
        0 <= i < a.len() ==> {
            &&& (#[trigger] a[i]).0@ == b[i].0@
            &&& a[i].1 == b[i].1
            &&& a[i].2 == b[i].2
            &&& a[i].3 == b[i].3
        }
}

/// Whether two configurations say the same.
pub open spec fn same_config(a: VerilatedModelConfig, b: VerilatedModelConfig) -> bool {
    &&& a.verilator_optimization == b.verilator_optimization
    &&& text::views(a.ignored_warnings@) == text::views(b.ignored_warnings@)
    &&& a.enable_tracing == b.enable_tracing
    &&& a.cxx_executable@ == b.cxx_executable@
    &&& a.cxx_standard == b.cxx_standard
}

proof fn lemma_number_input(m: nat, n: nat)
    requires
        m <= u64::MAX,
        n <= u64::MAX,
    ensures
        number_input(m) == number_input(n) ==> m == n,
        number_input(m)[0] == number_input(n)[0] ==> m == n,
{
    vstd::bytes::lemma_auto_spec_u64_to_from_le_bytes();
    assert(number_input(m)[0] == vstd::bytes::spec_u64_to_le_bytes(m as u64));
    assert(number_input(n)[0] == vstd::bytes::spec_u64_to_le_bytes(n as u64));
}

proof fn lemma_text_input(s: Seq<char>, t: Seq<char>)
    ensures
        text_input(s) == text_input(t) ==> s == t,
{
    assert(text_input(s)[0] == vstd::utf8::encode_utf8(s));
    assert(text_input(t)[0] == vstd::utf8::encode_utf8(t));
    vstd::utf8::encode_utf8_decode_utf8(s);
    vstd::utf8::encode_utf8_decode_utf8(t);
}

proof fn lemma_split(a: Seq<Seq<u8>>, b: Seq<Seq<u8>>, x: Seq<Seq<u8>>, y: Seq<Seq<u8>>)
    requires
        a + b == x + y,
        a.len() == x.len(),
    ensures
        a == x,
        b == y,
{
    let n = a.len() as int;
    assert(a =~= (a + b).take(n));
    assert(x =~= (x + y).take(n));
    assert(b =~= (a + b).skip(n));
    assert(y =~= (x + y).skip(n));
}

proof fn lemma_port_input(a: Port, b: Port)
    requires
        port_input(a) == port_input(b),
    ensures
        a.0@ == b.0@,
        a.1 == b.1,
        a.2 == b.2,
        a.3 == b.3,
{
    lemma_split(
        text_input(a.0@) + number_input(a.1 as nat) + number_input(a.2 as nat),
        number_input(direction_index(a.3)),
        text_input(b.0@) + number_input(b.1 as nat) + number_input(b.2 as nat),
        number_input(direction_index(b.3)),
    );
    lemma_split(
        text_input(a.0@) + number_input(a.1 as nat),
        number_input(a.2 as nat),
        text_input(b.0@) + number_input(b.1 as nat),
        number_input(b.2 as nat),
    );
    lemma_split(
        text_input(a.0@),
        number_input(a.1 as nat),
        text_input(b.0@),
        number_input(b.1 as nat),
    );
    lemma_text_input(a.0@, b.0@);
    lemma_number_input(a.1 as nat, b.1 as nat);
    lemma_number_input(a.2 as nat, b.2 as nat);
    lemma_number_input(direction_index(a.3), direction_index(b.3));
}

proof fn lemma_each_port_length(ports: Seq<Port>)
    ensures
        each_port_input(ports).len() == 5 * ports.len(),
    decreases ports.len(),
{
    if ports.len() > 0 {
        lemma_each_port_length(ports.drop_last());
    }
}

proof fn lemma_each_text_length(texts: Seq<String>)
    ensures
        each_text_input(texts).len() == 2 * texts.len(),
    decreases texts.len(),
{
    if texts.len() > 0 {
        lemma_each_text_length(texts.drop_last());
    }
}

proof fn lemma_each_port_input(a: Seq<Port>, b: Seq<Port>)
    requires
        a.len() == b.len(),
        each_port_input(a) == each_port_input(b),
    ensures
        same_ports(a, b),
    decreases a.len(),
{
    if a.len() > 0 {
        let (x, y) = (a.drop_last(), b.drop_last());
        lemma_each_port_length(x);
        lemma_each_port_length(y);
        lemma_split(
            each_port_input(x),
            port_input(a.last()),
            each_port_input(y),
            port_input(b.last()),
        );
        lemma_port_input(a.last(), b.last());
        lemma_each_port_input(x, y);
        assert forall|i: int| 0 <= i < a.len() implies (#[trigger] a[i]).0@ == b[i].0@ && a[i].1
            == b[i].1 && a[i].2 == b[i].2 && a[i].3 == b[i].3 by {
            if i < x.len() {
                assert(x[i].0@ == y[i].0@);
            }
        }
    }
}

proof fn lemma_each_text_input(a: Seq<String>, b: Seq<String>)
    requires
        a.len() == b.len(),
        each_text_input(a) == each_text_input(b),
    ensures
        text::views(a) == text::views(b),
    decreases a.len(),
{
    if a.len() > 0 {
        let (x, y) = (a.drop_last(), b.drop_last());
        lemma_each_text_length(x);
        lemma_each_text_length(y);
        lemma_split(
            each_text_input(x),
            text_input(a.last()@),
            each_text_input(y),
            text_input(b.last()@),
        );
        lemma_text_input(a.last()@, b.last()@);
        lemma_each_text_input(x, y);
        assert(text::views(a) =~= text::views(x).push(a.last()@));
        assert(text::views(b) =~= text::views(y).push(b.last()@));
    } else {
        assert(text::views(a) =~= text::views(b));
    }
}

proof fn lemma_waveform_input(
    a: Option<Waveform>,
    b: Option<Waveform>,
    x: Seq<Seq<u8>>,
    y: Seq<Seq<u8>>,
)
    requires
        waveform_input(a) + x == waveform_input(b) + y,
    ensures
        a == b,
        x == y,
{
    lemma_number_input(0, 1);
    assert((waveform_input(a) + x)[0] == waveform_input(a)[0]);
    assert((waveform_input(b) + y)[0] == waveform_input(b)[0]);
    lemma_split(waveform_input(a), x, waveform_input(b), y);
    assert(waveform_input(a).last() == waveform_input(b).last());
}

proof fn lemma_standard_input(a: Option<CxxStandard>, b: Option<CxxStandard>)
    requires
        standard_input(a) == standard_input(b),
    ensures
        a == b,
{
    match (a, b) {
        (Some(s), Some(t)) => {
            lemma_number_input(standard_index(s), standard_index(t));
            assert(standard_input(a)[1] == number_input(standard_index(s))[0]);
            assert(standard_input(b)[1] == number_input(standard_index(t))[0]);
        },
        (None, Some(_)) => {
            assert(standard_input(a).len() == 1 && standard_input(b).len() == 2);
        },
        (Some(_), None) => {
            assert(standard_input(a).len() == 2 && standard_input(b).len() == 1);
        },
        (None, None) => {},
    }
}

proof fn lemma_config_parts(config: VerilatedModelConfig)
    ensures
        config_input(config) == number_input(config.verilator_optimization as nat) + (number_input(
            config.ignored_warnings@.len(),
        ) + (each_text_input(config.ignored_warnings@) + (waveform_input(config.enable_tracing) + (
        text_input(config.cxx_executable@) + standard_input(config.cxx_standard))))),
{
    lemma_regroup(
        number_input(config.verilator_optimization as nat),
        number_input(config.ignored_warnings@.len()),
        each_text_input(config.ignored_warnings@),
        waveform_input(config.enable_tracing),
        text_input(config.cxx_executable@),
        standard_input(config.cxx_standard),
    );
}

proof fn lemma_regroup(
    a: Seq<Seq<u8>>,
    b: Seq<Seq<u8>>,
    c: Seq<Seq<u8>>,
    d: Seq<Seq<u8>>,
    e: Seq<Seq<u8>>,
    f: Seq<Seq<u8>>,
)
    ensures
        a + b + c + d + e + f == a + (b + (c + (d + (e + f)))),
{
    assert(a + b + c + d + e + f =~= a + (b + (c + (d + (e + f)))));
}

proof fn lemma_config_input(a: VerilatedModelConfig, b: VerilatedModelConfig)
    requires
        config_input(a) == config_input(b),
    ensures
        same_config(a, b),
{
    let (k, l) = (a.ignored_warnings.len() as nat, b.ignored_warnings.len() as nat);
    let a4 = text_input(a.cxx_executable@) + standard_input(a.cxx_standard);
    let b4 = text_input(b.cxx_executable@) + standard_input(b.cxx_standard);
    let a3 = waveform_input(a.enable_tracing) + a4;
    let b3 = waveform_input(b.enable_tracing) + b4;
    let a2 = each_text_input(a.ignored_warnings@) + a3;
    let b2 = each_text_input(b.ignored_warnings@) + b3;
    let a1 = number_input(k) + a2;
    let b1 = number_input(l) + b2;
    lemma_config_parts(a);
    lemma_config_parts(b);
    lemma_split(
        number_input(a.verilator_optimization as nat),
        a1,
        number_input(b.verilator_optimization as nat),
        b1,
    );
    lemma_number_input(a.verilator_optimization as nat, b.verilator_optimization as nat);
    lemma_split(number_input(k), a2, number_input(l), b2);
    lemma_number_input(k, l);
    lemma_each_text_length(a.ignored_warnings@);
    lemma_each_text_length(b.ignored_warnings@);
    lemma_split(
        each_text_input(a.ignored_warnings@),
        a3,
        each_text_input(b.ignored_warnings@),
        b3,
    );
    lemma_each_text_input(a.ignored_warnings@, b.ignored_warnings@);
    lemma_waveform_input(a.enable_tracing, b.enable_tracing, a4, b4);
    lemma_split(
        text_input(a.cxx_executable@),
        standard_input(a.cxx_standard),
        text_input(b.cxx_executable@),
        standard_input(b.cxx_standard),
    );
    lemma_text_input(a.cxx_executable@, b.cxx_executable@);
    lemma_standard_input(a.cxx_standard, b.cxx_standard);
}

/// Nothing of a request is lost before it is hashed: requests that feed the hasher alike have the
/// same ports in the same order and the same configuration.
pub proof fn law_request_input_is_unambiguous(
    ports: Seq<Port>,
    config: VerilatedModelConfig,
    other_ports: Seq<Port>,
    other_config: VerilatedModelConfig,
)
    requires
        ports.len() <= usize::MAX,
        other_ports.len() <= usize::MAX,
        request_input(ports, config) == request_input(other_ports, other_config),
    ensures
        same_ports(ports, other_ports),
        same_config(config, other_config),
{
    let (m, n) = (ports.len(), other_ports.len());
    let (p, q) = (each_port_input(ports), each_port_input(other_ports));
    let (c, d) = (config_input(config), config_input(other_config));
    assert(request_input(ports, config) =~= number_input(m) + (p + c));
    assert(request_input(other_ports, other_config) =~= number_input(n) + (q + d));
    lemma_split(number_input(m), p + c, number_input(n), q + d);
    lemma_number_input(m, n);
    lemma_each_port_length(ports);
    lemma_each_port_length(other_ports);
    lemma_split(p, c, q, d);
    lemma_each_port_input(ports, other_ports);
    lemma_config_input(config, other_config);
}

proof fn lemma_same_ports_same_input(a: Seq<Port>, b: Seq<Port>)
    requires
        same_ports(a, b),
    ensures
        each_port_input(a) == each_port_input(b),
    decreases a.len(),
{
    if a.len() > 0 {
        let (x, y) = (a.drop_last(), b.drop_last());
        assert forall|i: int| 0 <= i < x.len() implies (#[trigger] x[i]).0@ == y[i].0@ && x[i].1
            == y[i].1 && x[i].2 == y[i].2 && x[i].3 == y[i].3 by {
            assert(a[i].0@ == b[i].0@);
        }
        lemma_same_ports_same_input(x, y);
        assert(a[a.len() - 1].0@ == b[b.len() - 1].0@);
    }
}

proof fn lemma_same_texts_same_input(a: Seq<String>, b: Seq<String>)
    requires
        text::views(a) == text::views(b),
    ensures
        each_text_input(a) == each_text_input(b),
    decreases a.len(),
{
    assert(text::views(a).len() == a.len() && text::views(b).len() == b.len());
    if a.len() > 0 {
        let (x, y) = (a.drop_last(), b.drop_last());
        assert(text::views(a)[a.len() - 1] == a.last()@);
        assert(text::views(b)[b.len() - 1] == b.last()@);
        assert(text::views(x) =~= text::views(a).drop_last());
        assert(text::views(y) =~= text::views(b).drop_last());
        lemma_same_texts_same_input(x, y);
    }
}

/// Asking twice for the same ports and the same configuration gives the same fingerprint.
pub proof fn law_same_request_same_fingerprint(
    ports: Seq<Port>,
    config: VerilatedModelConfig,
    other_ports: Seq<Port>,
    other_config: VerilatedModelConfig,
)
    requires
        same_ports(ports, other_ports),
        same_config(config, other_config),
    ensures
        request_hash(ports, config) == request_hash(other_ports, other_config),
{
    lemma_same_ports_same_input(ports, other_ports);
    lemma_same_texts_same_input(config.ignored_warnings@, other_config.ignored_warnings@);
    assert(text::views(config.ignored_warnings@).len() == config.ignored_warnings@.len());
    assert(text::views(other_config.ignored_warnings@).len()
        == other_config.ignored_warnings@.len());
}

/// The fingerprint is taken from all of a request: it is the hasher's result on an input from which
/// every port, in order, and every field of the configuration can be told. So two requests that are
/// hashed from the same input agree in each of them.
pub proof fn law_fingerprint_is_taken_from_the_whole_request(
    ports: Seq<Port>,
    config: VerilatedModelConfig,
    other_ports: Seq<Port>,
    other_config: VerilatedModelConfig,
    input: Seq<Seq<u8>>,
    i: int,
)
    requires
        ports.len() <= usize::MAX,
        other_ports.len() <= usize::MAX,
    ensures
        request_hash(ports, config)
            == <DefaultHasher as vstd::std_specs::hash::DefaultHasherAdditionalSpecFns>::spec_finish(
            request_input(ports, config),
        ),
        request_input(ports, config) == input && request_input(other_ports, other_config) == input
            ==> {
            &&& ports.len() == other_ports.len()
            &&& 0 <= i < ports.len() ==> {
                &&& ports[i].0@ == other_ports[i].0@
                &&& ports[i].1 == other_ports[i].1
                &&& ports[i].2 == other_ports[i].2
                &&& ports[i].3 == other_ports[i].3
            }
            &&& config.verilator_optimization == other_config.verilator_optimization
            &&& config.ignored_warnings@.len() == other_config.ignored_warnings@.len()
            &&& 0 <= i < config.ignored_warnings@.len() ==> config.ignored_warnings@[i]@
                == other_config.ignored_warnings@[i]@
            &&& config.enable_tracing == other_config.enable_tracing
            &&& config.cxx_executable@ == other_config.cxx_executable@
            &&& config.cxx_standard == other_config.cxx_standard
        },
{
    if request_input(ports, config) == input && request_input(other_ports, other_config) == input {
        law_request_input_is_unambiguous(ports, config, other_ports, other_config);
        let (a, b) = (
            text::views(config.ignored_warnings@),
            text::views(other_config.ignored_warnings@),
        );
        assert(a.len() == config.ignored_warnings@.len());
        assert(b.len() == other_config.ignored_warnings@.len());
        if 0 <= i < config.ignored_warnings@.len() {
            assert(a[i] == config.ignored_warnings@[i]@);
            assert(b[i] == other_config.ignored_warnings@[i]@);
        }
    }
}

/// Requests that agree in every port, in order, and in every field of the configuration have the
/// same fingerprint.
pub proof fn law_equal_requests_are_hashed_alike(
    ports: Seq<Port>,
    config: VerilatedModelConfig,
    other_ports: Seq<Port>,
    other_config: VerilatedModelConfig,
)
    requires
        ports.len() == other_ports.len(),
        forall|i: int|
            0 <= i < ports.len() ==> (#[trigger] ports[i]).0@ == other_ports[i].0@ && ports[i].1
                == other_ports[i].1 && ports[i].2 == other_ports[i].2 && ports[i].3
                == other_ports[i].3,
        config.verilator_optimization == other_config.verilator_optimization,
        config.ignored_warnings@.len() == other_config.ignored_warnings@.len(),
        forall|i: int|
            0 <= i < config.ignored_warnings@.len() ==> (#[trigger] config.ignored_warnings@[i])@
                == other_config.ignored_warnings@[i]@,
        config.enable_tracing == other_config.enable_tracing,
        config.cxx_executable@ == other_config.cxx_executable@,
        config.cxx_standard == other_config.cxx_standard,
    ensures
        request_hash(ports, config) == request_hash(other_ports, other_config),
{
    assert(text::views(config.ignored_warnings@) =~= text::views(other_config.ignored_warnings@));
    law_same_request_same_fingerprint(ports, config, other_ports, other_config);
}

} // verus!
