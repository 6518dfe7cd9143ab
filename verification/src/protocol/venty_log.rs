//! A notification of a Venty or Veazy, spelled out for a log.
use crate::shown::one_decimal_text;
use crate::text::add_line;
use crate::text::decimal_text;
use crate::text::fixed_width_text;
use crate::utils::celsius_of;
use crate::utils::u16_at;
use vstd::prelude::*;
use vstd::string::*;

verus! {

/// A byte in two hexadecimal digits.
pub open spec fn hex2(b: u8) -> Seq<char> {
    crate::text::fixed_width(b as nat, 16, 2)
}

/// Bytes in hexadecimal, with spaces between them.
pub open spec fn hex_list(data: Seq<u8>) -> Seq<char>
    decreases data.len(),
{
    if data.len() == 0 {
        seq![]
    } else if data.len() == 1 {
        hex2(data[0])
    } else {
        hex_list(data.drop_last()).push(' ') + hex2(data.last())
    }
}

/// A word for a heater byte.
pub open spec fn mode_word(b: u8) -> Seq<char> {
    if b == 0 {
        "off"@
    } else if b == 1 {
        "normal"@
    } else if b == 2 {
        "boost"@
    } else if b == 3 {
        "superboost"@
    } else {
        "unknown"@
    }
}

/// Yes or no.
pub open spec fn yes_no(b: bool) -> Seq<char> {
    if b {
        "yes"@
    } else {
        "no"@
    }
}

/// A number in front of a unit, behind a label.
pub open spec fn labelled(label: Seq<char>, n: nat, unit: Seq<char>) -> Seq<char> {
    label + crate::text::decimal(n) + unit
}

/// Two bytes as a number and as a temperature.
pub open spec fn temperature_line(label: Seq<char>, raw: nat, middle: Seq<char>, end: Seq<char>) -> Seq<
    char,
> {
    label + crate::text::fixed_width(raw, 16, 4) + " (u16="@ + crate::text::decimal(raw) + middle
        + crate::shown::one_decimal(crate::utils::of_tenths(raw)) + end
}

/// The settings byte with three of its bits.
pub open spec fn settings_line(s: u8) -> Seq<char> {
    "  [14]  settings= 0x"@ + hex2(s) + " (cel="@ + yes_no(s & 1 == 0) + ",setpoint="@ + yes_no(
        s & 2 != 0,
    ) + ",vibrate="@ + yes_no(s & 0x40 != 0) + ")"@
}

/// The lines about the first bytes, up to the target.
pub open spec fn head_lines(data: Seq<u8>) -> Seq<Seq<char>> {
    let first = seq![
        "Venty notification: cmd=0x"@ + hex2(data[0]) + " len="@ + crate::text::decimal(data.len())
            + " ["@ + hex_list(data) + "]"@,
    ];
    let masked = if data.len() >= 2 {
        first.push("  [0] cmd_id    = 0x"@ + hex2(data[0])).push(
            "  [1] mask      = 0x"@ + hex2(data[1]) + " ("@ + crate::text::fixed_width(
                data[1] as nat,
                2,
                8,
            ) + ")"@,
        )
    } else {
        first
    };
    let spare = if data.len() >= 4 {
        masked.push(
            temperature_line(
                "  [2:3] bytes   = 0x"@,
                crate::utils::little_endian(data.subrange(2, 4)),
                ", as_temp="@,
                "°C — UNUSED)"@,
            ),
        )
    } else {
        masked
    };
    if data.len() >= 6 {
        spare.push(
            temperature_line(
                "  [4:5] target  = 0x"@,
                crate::utils::little_endian(data.subrange(4, 6)),
                ", "@,
                "°C)"@,
            ),
        )
    } else {
        spare
    }
}

/// The lines behind `before` about the bytes from the boost offset on.
pub open spec fn tail_lines(before: Seq<Seq<char>>, data: Seq<u8>) -> Seq<Seq<char>> {
    let boost = if data.len() >= 7 {
        before.push(labelled("  [6]   boost   = "@, data[6] as nat, "°C"@))
    } else {
        before
    };
    let super_boost = if data.len() >= 8 {
        boost.push(labelled("  [7]   sboost  = "@, data[7] as nat, "°C"@))
    } else {
        boost
    };
    let battery = if data.len() >= 9 {
        super_boost.push(labelled("  [8]   battery = "@, data[8] as nat, "%"@))
    } else {
        super_boost
    };
    let timer = if data.len() >= 11 {
        battery.push(
            labelled(
                "  [9:10] timer  = "@,
                crate::utils::little_endian(data.subrange(9, 11)),
                "s"@,
            ),
        )
    } else {
        battery
    };
    let heater = if data.len() >= 12 {
        timer.push("  [11]  heater  = "@ + mode_word(data[11]))
    } else {
        timer
    };
    let charger = if data.len() >= 14 {
        heater.push(labelled("  [13]  charger = "@, data[13] as nat, ""@))
    } else {
        heater
    };
    if data.len() >= 15 {
        charger.push(settings_line(data[14]))
    } else {
        charger
    }
}

/// All lines about a notification.
pub open spec fn dump(data: Seq<u8>) -> Seq<Seq<char>> {
    if data.len() == 0 {
        seq!["Venty notification: empty"@]
    } else {
        tail_lines(head_lines(data), data)
    }
}

fn hex2_text(b: u8) -> (r: String)
    ensures
        r@ == hex2(b),
{
    fixed_width_text(b as u64, 16, 2)
}

fn hex_list_text(data: &[u8]) -> (r: String)
    ensures
        r@ == hex_list(data@),
{
    let mut out = String::new();
    let mut i: usize = 0;
    while i < data.len()
        invariant
            i <= data@.len(),
            out@ == hex_list(data@.take(i as int)),
        decreases data@.len() - i,
    {
        let digits = hex2_text(data[i]);
        let ghost before = out@;
        if i > 0 {
            out.push(' ');
        }
        out.append(digits.as_str());
        proof {
            let now = data@.take(i + 1);
            assert(now.drop_last() == data@.take(i as int));
            assert(now.last() == data@[i as int]);
            assert(now.len() == i + 1);
            if i == 0 {
                assert(before == Seq::<char>::empty());
                assert(out@ == hex2(data@[0]));
            }
        }
        i = i + 1;
    }
    assert(data@.take(data@.len() as int) == data@);
    out
}

fn labelled_text(label: &str, n: u64, unit: &str) -> (r: String)
    ensures
        r@ == labelled(label@, n as nat, unit@),
{
    let mut out = label.to_owned();
    let digits = decimal_text(n);
    out.append(digits.as_str());
    out.append(unit);
    out
}

fn temperature_text(label: &str, raw: u16, middle: &str, end: &str) -> (r: String)
    ensures
        r@ == temperature_line(label@, raw as nat, middle@, end@),
{
    let mut out = label.to_owned();
    let hex = fixed_width_text(raw as u64, 16, 4);
    out.append(hex.as_str());
    out.append(" (u16=");
    let digits = decimal_text(raw as u64);
    out.append(digits.as_str());
    out.append(middle);
    let degrees = one_decimal_text(celsius_of(raw as u32));
    out.append(degrees.as_str());
    out.append(end);
    out
}

fn yes_no_text(b: bool) -> (r: &'static str)
    ensures
        r@ == yes_no(b),
{
    if b {
        "yes"
    } else {
        "no"
    }
}

fn settings_text(s: u8) -> (r: String)
    ensures
        r@ == settings_line(s),
{
    let mut out = "  [14]  settings= 0x".to_owned();
    let digits = hex2_text(s);
    out.append(digits.as_str());
    out.append(" (cel=");
    out.append(yes_no_text((s & 1) == 0));
    out.append(",setpoint=");
    out.append(yes_no_text((s & 2) != 0));
    out.append(",vibrate=");
    out.append(yes_no_text((s & 0x40) != 0));
    out.append(")");
    out
}

fn mode_text(b: u8) -> (r: &'static str)
    ensures
        r@ == mode_word(b),
{
    match b {
        0 => "off",
        1 => "normal",
        2 => "boost",
        3 => "superboost",
        _ => "unknown",
    }
}

/// The lines about the first bytes, up to the target.
fn head_text(data: &[u8]) -> (r: Vec<String>)
    requires
        data@.len() > 0,
    ensures
        crate::text::texts(r@) == head_lines(data@),
{
    let mut lines: Vec<String> = Vec::new();
    let mut first = "Venty notification: cmd=0x".to_owned();
    let cmd = hex2_text(data[0]);
    first.append(cmd.as_str());
    first.append(" len=");
    let len = decimal_text(data.len() as u64);
    first.append(len.as_str());
    first.append(" [");
    let list = hex_list_text(data);
    first.append(list.as_str());
    first.append("]");
    assert(crate::text::texts(lines@) == Seq::<Seq<char>>::empty());
    add_line(&mut lines, first);
    assert(crate::text::texts(lines@) == seq![
        "Venty notification: cmd=0x"@ + hex2(data@[0]) + " len="@ + crate::text::decimal(
            data@.len(),
        ) + " ["@ + hex_list(data@) + "]"@,
    ]);
    if data.len() >= 2 {
        let mut id = "  [0] cmd_id    = 0x".to_owned();
        id.append(cmd.as_str());
        add_line(&mut lines, id);
        let mut mask = "  [1] mask      = 0x".to_owned();
        let digits = hex2_text(data[1]);
        mask.append(digits.as_str());
        mask.append(" (");
        let bits = fixed_width_text(data[1] as u64, 2, 8);
        mask.append(bits.as_str());
        mask.append(")");
        add_line(&mut lines, mask);
    }
    if data.len() >= 4 {
        let line = temperature_text(
            "  [2:3] bytes   = 0x",
            u16_at(data, 2),
            ", as_temp=",
            "°C — UNUSED)",
        );
        add_line(&mut lines, line);
    }
    if data.len() >= 6 {
        let line = temperature_text("  [4:5] target  = 0x", u16_at(data, 4), ", ", "°C)");
        add_line(&mut lines, line);
    }
    lines
}

/// A notification line by line, for a log.
pub fn debug_dump_notification(data: &[u8]) -> (r: Vec<String>)
    ensures
        crate::text::texts(r@) == dump(data@),
{
    if data.len() == 0 {
        let mut lines: Vec<String> = Vec::new();
        assert(crate::text::texts(lines@) == Seq::<Seq<char>>::empty());
        add_line(&mut lines, "Venty notification: empty".to_owned());
        return lines;
    }
    let mut lines = head_text(data);
    if data.len() >= 7 {
        add_line(&mut lines, labelled_text("  [6]   boost   = ", data[6] as u64, "°C"));
    }
    if data.len() >= 8 {
        add_line(&mut lines, labelled_text("  [7]   sboost  = ", data[7] as u64, "°C"));
    }
    if data.len() >= 9 {
        add_line(&mut lines, labelled_text("  [8]   battery = ", data[8] as u64, "%"));
    }
    if data.len() >= 11 {
        add_line(&mut lines, labelled_text("  [9:10] timer  = ", u16_at(data, 9) as u64, "s"));
    }
    if data.len() >= 12 {
        let mut line = "  [11]  heater  = ".to_owned();
        line.append(mode_text(data[11]));
        add_line(&mut lines, line);
    }
    if data.len() >= 14 {
        add_line(&mut lines, labelled_text("  [13]  charger = ", data[13] as u64, ""));
    }
    if data.len() >= 15 {
        add_line(&mut lines, settings_text(data[14]));
    }
    lines
}

proof fn lemma_shown_bits(s: u8)
    by (bit_vector)
    ensures
        (s & 1 == 0) == (s % 2 == 0),
        (s & 2 != 0) == (s / 2 % 2 == 1),
        (s & 0x40 != 0) == (s / 64 % 2 == 1),
{
}

/// A byte is shown as two of the sixteen digits, the larger part first.
pub proof fn law_hex(b: u8)
    ensures
        hex2(b).len() == 2,
        ({
            let digits = "0123456789ABCDEF"@;
            hex2(b)[0] == digits[(b / 16) as int] && hex2(b)[1] == digits[(b % 16) as int]
        }),
{
    reveal_with_fuel(crate::text::fixed_width, 3);
    reveal_strlit("0123456789ABCDEF");
    assert((b as nat / 16) % 16 == b / 16);
}

/// A list of bytes has two digits for each and a space between two of them, in their order.
pub proof fn law_hex_list(data: Seq<u8>, i: int)
    requires
        0 <= i < data.len(),
    ensures
        hex_list(data).len() == 3 * data.len() - 1,
        hex_list(data).subrange(3 * i, 3 * i + 2) == hex2(data[i]),
        i > 0 ==> hex_list(data)[3 * i - 1] == ' ',
    decreases data.len(),
{
    law_hex(data[i]);
    let list = hex_list(data);
    if data.len() == 1 {
        assert(list.subrange(0, 2) == hex2(data[0]));
    } else {
        let front = data.drop_last();
        law_hex(data.last());
        if i < data.len() - 1 {
            law_hex_list(front, i);
            assert(list.subrange(3 * i, 3 * i + 2) == hex_list(front).subrange(3 * i, 3 * i + 2));
        } else {
            law_hex_list(front, 0);
            assert(list.subrange(3 * i, 3 * i + 2) == hex2(data.last()));
        }
    }
}

/// One line for each thing that the notification is long enough for, in the order of its bytes.
pub open spec fn line_count(len: nat) -> int {
    let firsts: int = if len < 2 {
        1
    } else if len < 4 {
        3
    } else if len < 6 {
        4
    } else {
        5
    };
    if len < 7 {
        firsts
    } else if len < 8 {
        6
    } else if len < 9 {
        7
    } else if len < 11 {
        8
    } else if len < 12 {
        9
    } else if len < 14 {
        10
    } else if len < 15 {
        11
    } else {
        12
    }
}

/// Each line tells the byte that it names, as far as the notification goes: the offsets of the
/// boosts in degrees, the battery in percent, the timer in seconds from two bytes, the heater in
/// words, the charger, and three switches of the settings byte.
#[verifier::rlimit(40)]
pub proof fn law_dump(data: &[u8], r: Vec<String>)
    requires
        call_ensures(debug_dump_notification, (data,), r),
        data@.len() > 0,
    ensures
        ({
            let n = data@.len();
            let d = data@;
            &&& r@.len() == line_count(n)
            &&& n >= 7 ==> r@[5]@ == "  [6]   boost   = "@ + crate::text::decimal(d[6] as nat) + "°C"@
            &&& n >= 8 ==> r@[6]@ == "  [7]   sboost  = "@ + crate::text::decimal(d[7] as nat) + "°C"@
            &&& n >= 9 ==> r@[7]@ == "  [8]   battery = "@ + crate::text::decimal(d[8] as nat) + "%"@
            &&& n >= 11 ==> r@[8]@ == "  [9:10] timer  = "@ + crate::text::decimal(
                (d[9] + 256 * d[10]) as nat,
            ) + "s"@
            &&& n >= 12 && d[11] == 0 ==> r@[9]@ == "  [11]  heater  = "@ + "off"@
            &&& n >= 12 && d[11] == 1 ==> r@[9]@ == "  [11]  heater  = "@ + "normal"@
            &&& n >= 12 && d[11] == 2 ==> r@[9]@ == "  [11]  heater  = "@ + "boost"@
            &&& n >= 12 && d[11] == 3 ==> r@[9]@ == "  [11]  heater  = "@ + "superboost"@
            &&& n >= 12 && d[11] > 3 ==> r@[9]@ == "  [11]  heater  = "@ + "unknown"@
            &&& n >= 14 ==> r@[10]@ == "  [13]  charger = "@ + crate::text::decimal(d[13] as nat) + ""@
            &&& n >= 15 ==> r@[11]@ == "  [14]  settings= 0x"@ + hex2(d[14]) + " (cel="@ + (
            if d[14] % 2 == 0 {
                "yes"@
            } else {
                "no"@
            }) + ",setpoint="@ + (if d[14] / 2 % 2 == 1 {
                "yes"@
            } else {
                "no"@
            }) + ",vibrate="@ + (if d[14] / 64 % 2 == 1 {
                "yes"@
            } else {
                "no"@
            }) + ")"@
        }),
{
    let d = data@;
    let lines = crate::text::texts(r@);
    assert(lines.len() == r@.len());
    assert(forall|i: int| 0 <= i < lines.len() ==> lines[i] == (#[trigger] r@[i])@);
    assert(lines == tail_lines(head_lines(d), d));
    assert(head_lines(d).len() == if d.len() < 2 {
        1
    } else if d.len() < 4 {
        3
    } else if d.len() < 6 {
        4
    } else {
        5int
    });
    if d.len() >= 11 {
        lemma_number(d, 9);
    }
    if d.len() >= 15 {
        lemma_shown_bits(d[14]);
    }
}

/// The first line tells the command and the length, and the next ones the command, the mask and
/// the two temperatures from their bytes.
#[verifier::rlimit(40)]
pub proof fn law_dump_head(data: &[u8], r: Vec<String>)
    requires
        call_ensures(debug_dump_notification, (data,), r),
    ensures
        ({
            let n = data@.len();
            let d = data@;
            let spare = (d[2] + 256 * d[3]) as nat;
            let target = (d[4] + 256 * d[5]) as nat;
            &&& n == 0 ==> r@.len() == 1 && r@[0]@ == "Venty notification: empty"@
            &&& n > 0 ==> r@[0]@ == "Venty notification: cmd=0x"@ + hex2(d[0]) + " len="@
                + crate::text::decimal(n) + " ["@ + hex_list(d) + "]"@
            &&& n >= 2 ==> r@[1]@ == "  [0] cmd_id    = 0x"@ + hex2(d[0])
            &&& n >= 2 ==> r@[2]@ == "  [1] mask      = 0x"@ + hex2(d[1]) + " ("@
                + crate::text::fixed_width(d[1] as nat, 2, 8) + ")"@
            &&& n >= 4 ==> r@[3]@ == "  [2:3] bytes   = 0x"@ + crate::text::fixed_width(spare, 16, 4)
                + " (u16="@ + crate::text::decimal(spare) + ", as_temp="@ + crate::shown::one_decimal(
                crate::utils::of_tenths(spare),
            ) + "°C — UNUSED)"@
            &&& n >= 6 ==> r@[4]@ == "  [4:5] target  = 0x"@ + crate::text::fixed_width(
                target,
                16,
                4,
            ) + " (u16="@ + crate::text::decimal(target) + ", "@ + crate::shown::one_decimal(
                crate::utils::of_tenths(target),
            ) + "°C)"@
        }),
{
    let d = data@;
    let lines = crate::text::texts(r@);
    assert(lines.len() == r@.len());
    assert(forall|i: int| 0 <= i < lines.len() ==> lines[i] == (#[trigger] r@[i])@);
    if d.len() > 0 {
        let head = head_lines(d);
        assert(lines == tail_lines(head, d));
        assert(forall|i: int| 0 <= i < head.len() ==> lines[i] == #[trigger] head[i]);
        if d.len() >= 4 {
            lemma_number(d, 2);
        }
        if d.len() >= 6 {
            lemma_number(d, 4);
        }
    }
}

/// Two bytes hold a number, low byte first.
proof fn lemma_number(d: Seq<u8>, i: int)
    requires
        0 <= i,
        i + 2 <= d.len(),
    ensures
        crate::utils::little_endian(d.subrange(i, i + 2)) == d[i] + 256 * d[i + 1],
{
    reveal_with_fuel(crate::utils::little_endian, 3);
    let s = d.subrange(i, i + 2);
    assert(s.skip(1) == seq![s[1]]);
    assert(s.skip(1).skip(1) == Seq::<u8>::empty());
}

} // verus!
