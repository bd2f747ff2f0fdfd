use vstd::prelude::*;

use crate::protocol::Command;
use crate::text::{contains_text, hex_char, hex_digits, join, occurs_in, push_char, text_eq};

verus! {

/// A serial port offered to the user.
pub struct DeviceInfo {
    pub port_name: String,
    pub description: String,
}

/// A serial port found on the machine, with the vendor and product
/// identifiers of its USB device when it is one.
pub struct PortEntry {
    pub port_name: String,
    pub usb_ids: Option<(u16, u16)>,
}

/// Characters that end a field of the token's reply line.
pub open spec fn is_separator(c: char) -> bool {
    c == ';' || c == ' ' || c == '\t' || c == '\r' || c == '\n'
}

/// The fields closed so far in `s`, and the field still open at its end.
pub open spec fn scan_fields(s: Seq<char>) -> (Seq<Seq<char>>, Seq<char>)
    decreases s.len(),
{
    if s.len() == 0 {
        (Seq::empty(), Seq::empty())
    } else {
        let (done, open) = scan_fields(s.drop_last());
        if is_separator(s.last()) {
            (done.push(open), Seq::empty())
        } else {
            (done, open.push(s.last()))
        }
    }
}

/// The fields of a reply line: the runs of characters between separators,
/// empty ones included.
pub open spec fn reply_fields(s: Seq<char>) -> Seq<Seq<char>> {
    scan_fields(s).0.push(scan_fields(s).1)
}

/// `i` is the position of the first `=` in `f`.
pub open spec fn first_equals_at(f: Seq<char>, i: int) -> bool {
    0 <= i < f.len() && f[i] == '=' && forall|k: int| 0 <= k < i ==> f[k] != '='
}

/// The key and value pairs of a list of fields: each field that holds `=`
/// gives the text before its first `=` as key and the text after it as
/// value; the other fields are ignored.
pub open spec fn pairs_of(fields: Seq<Seq<char>>) -> Seq<(Seq<char>, Seq<char>)>
    decreases fields.len(),
{
    if fields.len() == 0 {
        Seq::empty()
    } else {
        let f = fields.last();
        let rest = pairs_of(fields.drop_last());
        if f.contains('=') {
            let i = choose|i: int| first_equals_at(f, i);
            rest.push((f.subrange(0, i), f.subrange(i + 1, f.len() as int)))
        } else {
            rest
        }
    }
}

/// The key and value pairs of a reply line of the token, in order.
pub open spec fn reply_pairs(line: Seq<char>) -> Seq<(Seq<char>, Seq<char>)> {
    pairs_of(reply_fields(line))
}

/// `s` holds no separator.
pub open spec fn no_separator(s: Seq<char>) -> bool {
    forall|i: int| 0 <= i < s.len() ==> !is_separator(#[trigger] s[i])
}

/// A pair written as a field: the key, `=`, the value.
pub open spec fn field_text(p: (Seq<char>, Seq<char>)) -> Seq<char> {
    p.0 + seq!['='] + p.1
}

/// A reply line that writes each pair as `key=value;`, in order.
pub open spec fn format_reply(pairs: Seq<(Seq<char>, Seq<char>)>) -> Seq<char>
    decreases pairs.len(),
{
    if pairs.len() == 0 {
        Seq::empty()
    } else {
        format_reply(pairs.drop_last()) + field_text(pairs.last()) + seq![';']
    }
}

/// Each pair can be written in a reply line and read back: no key or value
/// holds a separator, and no key holds `=`.
pub open spec fn writable_pairs(pairs: Seq<(Seq<char>, Seq<char>)>) -> bool {
    forall|i: int|
        0 <= i < pairs.len() ==> no_separator(#[trigger] pairs[i].0) && no_separator(pairs[i].1)
            && !pairs[i].0.contains('=')
}

proof fn lemma_scan_plain(s: Seq<char>, w: Seq<char>)
    requires
        no_separator(w),
    ensures
        scan_fields(s + w) == (scan_fields(s).0, scan_fields(s).1 + w),
    decreases w.len(),
{
    if w.len() == 0 {
        assert(s + w =~= s);
        assert(scan_fields(s).1 + w =~= scan_fields(s).1);
    } else {
        let w0 = w.drop_last();
        lemma_scan_plain(s, w0);
        assert((s + w).drop_last() =~= s + w0);
        assert((s + w).last() == w[w.len() - 1]);
        assert(!is_separator(w[w.len() - 1]));
        assert((scan_fields(s).1 + w0).push(w.last()) =~= scan_fields(s).1 + w);
    }
}

proof fn lemma_scan_formatted(pairs: Seq<(Seq<char>, Seq<char>)>)
    requires
        writable_pairs(pairs),
    ensures
        scan_fields(format_reply(pairs)) == (
            pairs.map_values(|p: (Seq<char>, Seq<char>)| field_text(p)),
            Seq::<char>::empty(),
        ),
    decreases pairs.len(),
{
    let texts = pairs.map_values(|p: (Seq<char>, Seq<char>)| field_text(p));
    if pairs.len() == 0 {
        assert(texts =~= Seq::<Seq<char>>::empty());
    } else {
        let rest = pairs.drop_last();
        assert(writable_pairs(rest)) by {
            assert forall|i: int| 0 <= i < rest.len() implies no_separator(#[trigger] rest[i].0)
                && no_separator(rest[i].1) && !rest[i].0.contains('=') by {
                assert(rest[i] == pairs[i]);
            }
        }
        lemma_scan_formatted(rest);
        let f = field_text(pairs.last());
        assert(pairs.last() == pairs[pairs.len() - 1]);
        assert(no_separator(f)) by {
            let k = pairs.last().0;
            let v = pairs.last().1;
            assert forall|i: int| 0 <= i < f.len() implies !is_separator(#[trigger] f[i]) by {
                if i < k.len() {
                    assert(f[i] == k[i]);
                } else if i == k.len() {
                    assert(f[i] == '=');
                } else {
                    assert(f[i] == v[i - k.len() - 1]);
                }
            }
        }
        let prefix = format_reply(rest);
        lemma_scan_plain(prefix, f);
        assert(Seq::<char>::empty() + f =~= f);
        let line = format_reply(pairs);
        assert(line == prefix + f + seq![';']);
        assert(line.drop_last() =~= prefix + f);
        assert(line.last() == ';');
        assert(texts =~= rest.map_values(|p: (Seq<char>, Seq<char>)| field_text(p)).push(f));
    }
}

proof fn lemma_pairs_of_texts(pairs: Seq<(Seq<char>, Seq<char>)>)
    requires
        writable_pairs(pairs),
    ensures
        pairs_of(pairs.map_values(|p: (Seq<char>, Seq<char>)| field_text(p))) == pairs,
    decreases pairs.len(),
{
    let texts = pairs.map_values(|p: (Seq<char>, Seq<char>)| field_text(p));
    if pairs.len() == 0 {
        assert(texts =~= Seq::<Seq<char>>::empty());
        assert(pairs =~= Seq::<(Seq<char>, Seq<char>)>::empty());
    } else {
        let rest = pairs.drop_last();
        assert(writable_pairs(rest)) by {
            assert forall|i: int| 0 <= i < rest.len() implies no_separator(#[trigger] rest[i].0)
                && no_separator(rest[i].1) && !rest[i].0.contains('=') by {
                assert(rest[i] == pairs[i]);
            }
        }
        lemma_pairs_of_texts(rest);
        assert(texts.drop_last() =~= rest.map_values(|p: (Seq<char>, Seq<char>)| field_text(p)));
        let k = pairs.last().0;
        let v = pairs.last().1;
        assert(pairs.last() == pairs[pairs.len() - 1]);
        let f = texts.last();
        assert(f == field_text(pairs.last()));
        assert(f[k.len() as int] == '=');
        assert(f.contains('='));
        assert(first_equals_at(f, k.len() as int)) by {
            assert forall|j: int| 0 <= j < k.len() implies f[j] != '=' by {
                assert(f[j] == k[j]);
                if k[j] == '=' {
                    assert(k.contains('='));
                }
            }
        }
        let i = choose|i: int| first_equals_at(f, i);
        assert(i == k.len()) by {
            if i < k.len() {
                assert(f[i] != '=');
            } else if i > k.len() {
                assert(f[k.len() as int] != '=');
            }
        }
        assert(f.subrange(0, i) =~= k);
        assert(f.subrange(i + 1, f.len() as int) =~= v);
        assert(rest.push((k, v)) =~= pairs);
    }
}

/// Reading a line written by `format_reply` gives back the pairs, when each
/// can be written (no separator in keys and values, no `=` in keys).
pub proof fn reply_round_trip(pairs: Seq<(Seq<char>, Seq<char>)>)
    requires
        writable_pairs(pairs),
    ensures
        reply_pairs(format_reply(pairs)) == pairs,
{
    let texts = pairs.map_values(|p: (Seq<char>, Seq<char>)| field_text(p));
    lemma_scan_formatted(pairs);
    lemma_pairs_of_texts(pairs);
    let fields = reply_fields(format_reply(pairs));
    assert(fields == texts.push(Seq::<char>::empty()));
    assert(fields.drop_last() =~= texts);
    assert(!Seq::<char>::empty().contains('='));
}

/// The text of each pair.
pub open spec fn pair_views(v: Seq<(String, String)>) -> Seq<(Seq<char>, Seq<char>)> {
    v.map_values(|p: (String, String)| (p.0@, p.1@))
}

/// The value of the last pair whose key is `key`, if any.
pub open spec fn reply_value(pairs: Seq<(Seq<char>, Seq<char>)>, key: Seq<char>) -> Option<
    Seq<char>,
>
    decreases pairs.len(),
{
    if pairs.len() == 0 {
        None
    } else if pairs.last().0 == key {
        Some(pairs.last().1)
    } else {
        reply_value(pairs.drop_last(), key)
    }
}

/// Splits a field at its first `=`, if it holds one.
fn split_field(f: &str) -> (r: Option<(String, String)>)
    ensures
        r is None <==> !f@.contains('='),
        r matches Some(p) ==> {
            let i = choose|i: int| first_equals_at(f@, i);
            p.0@ == f@.subrange(0, i) && p.1@ == f@.subrange(i + 1, f@.len() as int)
        },
{
    let n = f.unicode_len();
    let mut j: usize = 0;
    while j < n
        invariant
            n == f@.len(),
            j <= n,
            forall|k: int| 0 <= k < j ==> f@[k] != '=',
        decreases n - j,
    {
        if f.get_char(j) == '=' {
            assert(first_equals_at(f@, j as int));
            let ghost i = choose|i: int| first_equals_at(f@, i);
            assert(i == j) by {
                if i < j {
                    assert(f@[i] != '=');
                } else if i > j {
                    assert(f@[j as int] == '=');
                }
            }
            let key = String::from_str(f.substring_char(0, j));
            let value = String::from_str(f.substring_char(j + 1, n));
            return Some((key, value));
        }
        j = j + 1;
    }
    assert(!f@.contains('=')) by {
        if f@.contains('=') {
            let k = choose|k: int| 0 <= k < f@.len() && f@[k] == '=';
            assert(f@[k] != '=');
        }
    }
    None
}

/// Reads the key and value pairs of a reply line of the token, such as
/// `SN=0042;PUB=04ab`.
pub fn parse_reply(line: &str) -> (r: Vec<(String, String)>)
    ensures
        pair_views(r@) == reply_pairs(line@),
{
    let n = line.unicode_len();
    let mut out: Vec<(String, String)> = Vec::new();
    let mut field = String::new();
    let mut i: usize = 0;
    while i < n
        invariant
            n == line@.len(),
            i <= n,
            pair_views(out@) == pairs_of(scan_fields(line@.subrange(0, i as int)).0),
            field@ == scan_fields(line@.subrange(0, i as int)).1,
        decreases n - i,
    {
        let c = line.get_char(i);
        let ghost prefix = line@.subrange(0, i + 1);
        assert(prefix.drop_last() =~= line@.subrange(0, i as int));
        if c == ';' || c == ' ' || c == '\t' || c == '\r' || c == '\n' {
            let ghost done = scan_fields(line@.subrange(0, i as int)).0;
            assert(done.push(field@).drop_last() =~= done);
            match split_field(field.as_str()) {
                Some(p) => {
                    let ghost before = out@;
                    out.push(p);
                    assert(pair_views(out@) =~= pair_views(before).push((p.0@, p.1@)));
                },
                None => {},
            }
            field = String::new();
        } else {
            push_char(&mut field, c);
        }
        i = i + 1;
    }
    assert(line@.subrange(0, n as int) =~= line@);
    let ghost done = scan_fields(line@).0;
    assert(done.push(field@).drop_last() =~= done);
    match split_field(field.as_str()) {
        Some(p) => {
            let ghost before = out@;
            out.push(p);
            assert(pair_views(out@) =~= pair_views(before).push((p.0@, p.1@)));
        },
        None => {},
    }
    out
}

/// The value of the last pair of `pairs` whose key is `key`, as a map built
/// from the pairs in order would hold it.
pub fn reply_get(pairs: &Vec<(String, String)>, key: &str) -> (r: Option<String>)
    ensures
        r matches Some(v) ==> reply_value(pair_views(pairs@), key@) == Some(v@),
        r is None ==> reply_value(pair_views(pairs@), key@) is None,
{
    let mut i: usize = pairs.len();
    assert(pairs@.subrange(0, i as int) =~= pairs@);
    while i > 0
        invariant
            i <= pairs@.len(),
            reply_value(pair_views(pairs@), key@) == reply_value(
                pair_views(pairs@.subrange(0, i as int)),
                key@,
            ),
        decreases i,
    {
        let ghost views = pair_views(pairs@.subrange(0, i as int));
        assert(views.drop_last() =~= pair_views(pairs@.subrange(0, i - 1)));
        assert(views.last() == (pairs@[i - 1].0@, pairs@[i - 1].1@));
        if text_eq(pairs[i - 1].0.as_str(), key) {
            return Some(pairs[i - 1].1.clone());
        }
        i = i - 1;
    }
    assert(pair_views(pairs@.subrange(0, 0)) =~= Seq::empty());
    None
}

/// Text of the four hexadecimal digits of a 16-bit value.
fn hex4(v: u16) -> (r: String)
    ensures
        r@ == hex_digits(v as nat, 4),
{
    let mut s = String::new();
    push_char(&mut s, hex_char(((v / 4096) % 16) as u8));
    push_char(&mut s, hex_char(((v / 256) % 16) as u8));
    push_char(&mut s, hex_char(((v / 16) % 16) as u8));
    push_char(&mut s, hex_char((v % 16) as u8));
    assert(s@ =~= hex_digits(v as nat, 4)) by {
        assert((v as nat / 16) / 16 == v as nat / 256) by (nonlinear_arith);
        assert((v as nat / 256) / 16 == v as nat / 4096) by (nonlinear_arith);
        reveal_with_fuel(hex_digits, 5);
    }
    s
}

/// How a USB port is described to the user.
pub open spec fn usb_description(vid: u16, pid: u16) -> Seq<char> {
    "USB: VID:"@ + hex_digits(vid as nat, 4) + " PID:"@ + hex_digits(pid as nat, 4)
}

/// The port offered when no USB port is found, which stands for a simulated token.
pub open spec fn simulated_port_name() -> Seq<char> {
    "/dev/ttyUSB_SIMU"@
}

/// The USB ports among `ports`, in order, each described by its vendor and
/// product identifiers; a single simulated device when there are none.
pub open spec fn usb_devices_of(ports: Seq<PortEntry>) -> Seq<(Seq<char>, Seq<char>)>
    decreases ports.len(),
{
    if ports.len() == 0 {
        Seq::empty()
    } else {
        let rest = usb_devices_of(ports.drop_last());
        match ports.last().usb_ids {
            Some((vid, pid)) => rest.push((ports.last().port_name@, usb_description(vid, pid))),
            None => rest,
        }
    }
}

/// The text of each device.
pub open spec fn device_views(v: Seq<DeviceInfo>) -> Seq<(Seq<char>, Seq<char>)> {
    v.map_values(|d: DeviceInfo| (d.port_name@, d.description@))
}

/// The devices to offer for the ports found on the machine: the USB ones,
/// or the simulated token when there is none.
pub fn list_devices(ports: Vec<PortEntry>) -> (r: Vec<DeviceInfo>)
    ensures
        usb_devices_of(ports@).len() > 0 ==> device_views(r@) == usb_devices_of(ports@),
        usb_devices_of(ports@).len() == 0 ==> device_views(r@) == seq![
            (simulated_port_name(), "BindKey Virtual Device (Simulation)"@),
        ],
{
    let mut devices: Vec<DeviceInfo> = Vec::new();
    let mut i: usize = 0;
    while i < ports.len()
        invariant
            i <= ports@.len(),
            device_views(devices@) == usb_devices_of(ports@.subrange(0, i as int)),
        decreases ports@.len() - i,
    {
        assert(ports@.subrange(0, i + 1).drop_last() =~= ports@.subrange(0, i as int));
        match ports[i].usb_ids {
            Some((vid, pid)) => {
                let a = join("USB: VID:", hex4(vid).as_str());
                let b = join(a.as_str(), " PID:");
                let description = join(b.as_str(), hex4(pid).as_str());
                let ghost before = devices@;
                devices.push(DeviceInfo { port_name: ports[i].port_name.clone(), description });
                assert(device_views(devices@) =~= device_views(before).push(
                    (ports@[i as int].port_name@, usb_description(vid, pid)),
                ));
            },
            None => {},
        }
        i = i + 1;
    }
    assert(ports@.subrange(0, ports@.len() as int) =~= ports@);
    if devices.len() == 0 {
        devices.push(
            DeviceInfo {
                port_name: String::from_str("/dev/ttyUSB_SIMU"),
                description: String::from_str("BindKey Virtual Device (Simulation)"),
            },
        );
        assert(device_views(devices@) =~= seq![
            (simulated_port_name(), "BindKey Virtual Device (Simulation)"@),
        ]);
    }
    devices
}

/// What the simulated token answers to a command.
pub open spec fn simulated_reply(cmd: Command) -> Seq<char> {
    match cmd {
        Command::GetStatus => "{\"status\": \"LOCKED\", \"version\": \"1.0.0\"}"@,
        Command::StartEnrollment { .. } => "{\"status\": \"WAITING_FINGER\", \"led\": \"BLINKING\"}"@,
        Command::Unlock { .. } => "{\"status\": \"UNLOCKED\", \"drive\": \"MOUNTED\"}"@,
    }
}

/// Sends a command of the first firmware. Only the simulated token, on a
/// port whose name holds `SIMU`, answers; a real port is not supported yet.
pub fn send_command(port_name: &str, cmd: &Command) -> (r: Result<String, String>)
    ensures
        occurs_in(port_name@, "SIMU"@) ==> (r matches Ok(reply) && reply@ == simulated_reply(*cmd)),
        !occurs_in(port_name@, "SIMU"@) ==> (r matches Err(e) && e@ == "Vrai matériel non connecté"@),
{
    if contains_text(port_name, "SIMU") {
        let reply = match cmd {
            Command::GetStatus => "{\"status\": \"LOCKED\", \"version\": \"1.0.0\"}",
            Command::StartEnrollment { .. } => "{\"status\": \"WAITING_FINGER\", \"led\": \"BLINKING\"}",
            Command::Unlock { .. } => "{\"status\": \"UNLOCKED\", \"drive\": \"MOUNTED\"}",
        };
        Ok(String::from_str(reply))
    } else {
        Err(String::from_str("Vrai matériel non connecté"))
    }
}

} // verus!
