//! Which advertised devices are vaporizers, and which of them is meant.
use crate::error::StorzError;
use crate::text::contains;
use crate::text::decimal_text;
use crate::text::parse_unsigned;
use crate::text::to_lowercase;
use crate::text::trim;
use vstd::prelude::*;
use vstd::string::*;

verus! {

/// What a device tells of itself.
#[derive(Debug)]
pub struct Advertisement {
    /// The advertised name; empty where there is none.
    pub name: String,
    pub address: String,
}

/// Some prefix occurs in the name.
pub open spec fn is_vaporizer(name: Seq<char>, prefixes: Seq<String>) -> bool {
    exists|i: int| 0 <= i < prefixes.len() && crate::text::occurs(name, #[trigger] prefixes[i]@)
}

/// The device is the one that a filter asks for: the filter occurs in its name or in its
/// address, in upper or lower case.
pub open spec fn is_asked_for(
    name: Seq<char>,
    address: Seq<char>,
    filter: Option<Seq<char>>,
) -> bool {
    match filter {
        Some(f) => {
            ||| crate::text::occurs(crate::text::lowercase(name), crate::text::lowercase(f))
            ||| crate::text::occurs(crate::text::lowercase(address), crate::text::lowercase(f))
        },
        None => true,
    }
}

/// A vaporizer that the filter lets through.
pub open spec fn is_match(ad: Advertisement, prefixes: Seq<String>, filter: Option<String>) -> bool {
    is_vaporizer(ad.name@, prefixes) && is_asked_for(
        ad.name@,
        ad.address@,
        crate::text::text_of(filter),
    )
}

/// Whether a name is that of a vaporizer.
pub fn name_matches(name: &str, prefixes: &[String]) -> (r: bool)
    ensures
        r == is_vaporizer(name@, prefixes@),
{
    let mut i: usize = 0;
    while i < prefixes.len()
        invariant
            i <= prefixes@.len(),
            forall|k: int|
                0 <= k < i ==> !crate::text::occurs(name@, #[trigger] prefixes@[k]@),
        decreases prefixes@.len() - i,
    {
        if contains(name, prefixes[i].as_str()) {
            assert(crate::text::occurs(name@, prefixes@[i as int]@));
            return true;
        }
        i = i + 1;
    }
    false
}

/// Whether a filter lets a device through, given name, address and filter in lower case.
pub fn filter_matches(name_lower: &str, address_lower: &str, filter_lower: &str) -> (r: bool)
    ensures
        r == (crate::text::occurs(name_lower@, filter_lower@) || crate::text::occurs(
            address_lower@,
            filter_lower@,
        )),
{
    contains(name_lower, filter_lower) || contains(address_lower, filter_lower)
}

/// Whether an advertised device is a vaporizer that the filter lets through.
pub fn advertisement_matches(ad: &Advertisement, prefixes: &[String], filter: &Option<String>) -> (r: bool)
    ensures
        r == is_match(*ad, prefixes@, *filter),
{
    if !name_matches(ad.name.as_str(), prefixes) {
        return false;
    }
    match filter {
        Some(f) => {
            let name = to_lowercase(ad.name.as_str());
            let address = to_lowercase(ad.address.as_str());
            let wanted = to_lowercase(f.as_str());
            filter_matches(name.as_str(), address.as_str(), wanted.as_str())
        },
        None => true,
    }
}

/// A device of which nothing is known is no vaporizer.
pub open spec fn is_found(name: Option<String>, prefixes: Seq<String>) -> bool {
    match name {
        Some(n) => is_vaporizer(n@, prefixes),
        None => false,
    }
}

/// The places from `i` on where there is a vaporizer, in their order.
pub open spec fn found_from(names: Seq<Option<String>>, prefixes: Seq<String>, i: int) -> Seq<usize>
    decreases names.len() - i,
{
    if i >= names.len() || i < 0 {
        seq![]
    } else if is_found(names[i], prefixes) {
        seq![i as usize] + found_from(names, prefixes, i + 1)
    } else {
        found_from(names, prefixes, i + 1)
    }
}

/// The vaporizers among the devices that a scan brought up, by their places. A name is missing
/// where a device tells none or cannot be asked.
pub fn discover_vaporizers(names: &[Option<String>], prefixes: &[String]) -> (r: Vec<usize>)
    ensures
        r@ == found_from(names@, prefixes@, 0),
{
    let mut found: Vec<usize> = Vec::new();
    let mut i: usize = 0;
    assert(found@ + found_from(names@, prefixes@, 0) == found_from(names@, prefixes@, 0));
    while i < names.len()
        invariant
            i <= names@.len(),
            found@ + found_from(names@, prefixes@, i as int) == found_from(names@, prefixes@, 0),
        decreases names@.len() - i,
    {
        let hit = match &names[i] {
            Some(name) => name_matches(name.as_str(), prefixes),
            None => false,
        };
        let ghost before = found@;
        if hit {
            found.push(i);
            assert(before + (seq![i] + found_from(names@, prefixes@, i + 1)) == found@ + found_from(
                names@,
                prefixes@,
                i + 1,
            ));
        }
        i = i + 1;
    }
    assert(found@ + Seq::<usize>::empty() == found@);
    found
}

/// Every vaporizer is found, and nothing else.
pub proof fn law_all_vaporizers_found(names: Seq<Option<String>>, prefixes: Seq<String>, i: int)
    requires
        0 <= i < names.len() <= usize::MAX,
    ensures
        found_from(names, prefixes, 0).contains(i as usize) <==> is_found(names[i], prefixes),
{
    lemma_found_from(names, prefixes, 0, i);
}

proof fn lemma_found_from(names: Seq<Option<String>>, prefixes: Seq<String>, from: int, i: int)
    requires
        0 <= from,
        0 <= i < names.len() <= usize::MAX,
    ensures
        found_from(names, prefixes, from).contains(i as usize) <==> from <= i && is_found(
            names[i],
            prefixes,
        ),
    decreases names.len() - from,
{
    let here = found_from(names, prefixes, from);
    if from < names.len() {
        let rest = found_from(names, prefixes, from + 1);
        lemma_found_from(names, prefixes, from + 1, i);
        if is_found(names[from], prefixes) {
            assert(here == seq![from as usize] + rest);
            if rest.contains(i as usize) {
                let k = choose|k: int| 0 <= k < rest.len() && rest[k] == i as usize;
                assert(here[k + 1] == i as usize);
            }
            if i == from {
                assert(here[0] == i as usize);
            }
            if here.contains(i as usize) {
                let k = choose|k: int| 0 <= k < here.len() && here[k] == i as usize;
                if k > 0 {
                    assert(rest[k - 1] == i as usize);
                }
            }
        }
    }
}

/// The words for a scan that did not start.
pub open spec fn scan_failure(reason: Seq<char>) -> Seq<char> {
    "Failed to start BLE scan: "@ + reason
        + "\n\nTroubleshooting:\n1. Ensure Bluetooth is enabled: rfkill unblock bluetooth\n2. Ensure adapter is powered on: bluetoothctl power on\n3. Try running with elevated permissions (sudo or bluetooth group)\n4. Check: bluetoothctl show"@
}

/// The error for a scan that did not start.
pub fn scan_error(reason: &str) -> (r: StorzError)
    ensures
        r@ == crate::error::Failure::Bluetooth(scan_failure(reason@)),
{
    let mut text = "Failed to start BLE scan: ".to_owned();
    text.append(reason);
    text.append(
        "\n\nTroubleshooting:\n1. Ensure Bluetooth is enabled: rfkill unblock bluetooth\n2. Ensure adapter is powered on: bluetoothctl power on\n3. Try running with elevated permissions (sudo or bluetooth group)\n4. Check: bluetoothctl show",
    );
    StorzError::Bluetooth(text)
}

/// How one of several devices is chosen.
#[derive(Debug)]
pub enum Choice {
    /// There is only one.
    Only,
    /// The user is shown these lines and asked.
    Ask { lines: Vec<String>, prompt: String },
}

/// The line of a device in the list to choose from.
pub open spec fn choice_line(i: int, name: Option<String>) -> Seq<char> {
    "  ["@ + crate::text::decimal((i + 1) as nat) + "] "@ + match name {
        Some(n) => n@,
        None => "Unknown"@,
    }
}

/// Select a single peripheral from a list, given the names.
///
/// If only one device is found, it is taken immediately.
/// If multiple are found, they are listed for the user to choose from.
pub fn select_peripheral(names: &[Option<String>]) -> (r: Result<Choice, StorzError>)
    ensures
        names@.len() == 0 <==> r is Err,
        r matches Err(e) ==> e@ == crate::error::Failure::DeviceNotFound,
        r matches Ok(choice) ==> (choice is Only <==> names@.len() == 1),
        r matches Ok(Choice::Ask { lines, prompt }) ==> {
            &&& crate::text::texts(lines@) == Seq::new(
                names@.len(),
                |i: int| choice_line(i, names@[i]),
            )
            &&& prompt@ == "\nSelect device [1-"@ + crate::text::decimal(names@.len()) + "]: "@
        },
{
    if names.len() == 0 {
        return Err(StorzError::DeviceNotFound);
    }
    if names.len() == 1 {
        return Ok(Choice::Only);
    }
    let mut lines: Vec<String> = Vec::new();
    let mut i: usize = 0;
    while i < names.len()
        invariant
            i <= names@.len(),
            lines@.len() == i,
            forall|k: int| 0 <= k < i ==> (#[trigger] lines@[k])@ == choice_line(k, names@[k]),
        decreases names@.len() - i,
    {
        let mut line = "  [".to_owned();
        let number = decimal_text(i as u64 + 1);
        line.append(number.as_str());
        line.append("] ");
        match &names[i] {
            Some(name) => line.append(name.as_str()),
            None => line.append("Unknown"),
        }
        lines.push(line);
        i = i + 1;
    }
    assert(crate::text::texts(lines@) == Seq::new(
        names@.len(),
        |i: int| choice_line(i, names@[i]),
    ));
    let mut prompt = "\nSelect device [1-".to_owned();
    let count = decimal_text(names.len() as u64);
    prompt.append(count.as_str());
    prompt.append("]: ");
    Ok(Choice::Ask { lines, prompt })
}

/// The place that an answer of the user names, counted from one; anything else is asked again.
pub fn selection(input: &str, count: usize) -> (r: Option<usize>)
    ensures
        r == match crate::text::unsigned_value(crate::text::trimmed(input@), usize::MAX as nat) {
            Some(n) => if 1 <= n <= count {
                Some((n - 1) as usize)
            } else {
                None
            },
            None => None,
        },
{
    let text = trim(input);
    match parse_unsigned(text.as_str(), usize::MAX as u64) {
        Some(n) => if 1 <= n && n <= count as u64 {
            Some((n - 1) as usize)
        } else {
            None
        },
        None => None,
    }
}

} // verus!
