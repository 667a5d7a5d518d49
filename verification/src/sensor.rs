//! Finding the geolocation sensor of the host in what its tools print. The
//! library reads the text; running the tools is the caller's part.

use crate::http::opt_view;
use crate::quote::{Geolocation, GeolocationView};
use crate::text::{
    chars_of, contains, find, find_in, includes, lines, lowercase, rows, same_chars, slice_of,
    split_lines, str_eq, string_of, to_lowercase, trim, trimmed, views,
};
use vstd::prelude::*;
use vstd::string::*;

verus! {

/// A sensor as it was found, before it is put into a claim. Coordinates are
/// kept as decimal text.
#[derive(Debug)]
pub struct RawSensorData {
    /// `mobile` or `gnss`.
    pub sensor_type: String,
    pub sensor_id: String,
    pub imei: Option<String>,
    pub imsi: Option<String>,
    pub lat: Option<String>,
    pub lon: Option<String>,
    pub accuracy: Option<String>,
}

pub ghost struct RawSensorView {
    pub sensor_type: Seq<char>,
    pub sensor_id: Seq<char>,
    pub imei: Option<Seq<char>>,
    pub imsi: Option<Seq<char>>,
    pub lat: Option<Seq<char>>,
    pub lon: Option<Seq<char>>,
    pub accuracy: Option<Seq<char>>,
}

impl View for RawSensorData {
    type V = RawSensorView;

    open spec fn view(&self) -> RawSensorView {
        RawSensorView {
            sensor_type: self.sensor_type@,
            sensor_id: self.sensor_id@,
            imei: opt_view(self.imei),
            imsi: opt_view(self.imsi),
            lat: opt_view(self.lat),
            lon: opt_view(self.lon),
            accuracy: opt_view(self.accuracy),
        }
    }
}

/// The view of an optional sensor.
pub open spec fn sensor_view(s: Option<RawSensorData>) -> Option<RawSensorView> {
    match s {
        Some(x) => Some(x@),
        None => None,
    }
}

/// The identifier of the USB device that a line of the USB listing is
/// about: what stands between `ID ` and the next space, or `unknown` where
/// the line has no such part.
pub open spec fn usb_id(line: Seq<char>) -> Seq<char> {
    match find(line, "ID "@) {
        Some(i) => {
            let rest = line.skip(i + 3);
            match find(rest, seq![' ']) {
                Some(j) => rest.take(j),
                None => "unknown"@,
            }
        },
        None => "unknown"@,
    }
}

/// The identifier of the USB device that a line of the USB listing is
/// about.
pub fn extract_usb_id(line: &str) -> (id: String)
    ensures
        id@ == usb_id(line@),
{
    let chars = chars_of(line);
    extract_usb_id_chars(chars.as_slice())
}

fn extract_usb_id_chars(line: &[char]) -> (id: String)
    ensures
        id@ == usb_id(line@),
{
    let marker = chars_of("ID ");
    proof {
        reveal_strlit("ID ");
    }
    match find_in(line, marker.as_slice(), 0) {
        Some(i) => {
            let rest = slice_of(line, i + 3, line.len());
            assert(rest@ == line@.skip(i + 3));
            let mut space: Vec<char> = Vec::new();
            space.push(' ');
            assert(space@ =~= seq![' ']);
            match find_in(rest.as_slice(), space.as_slice(), 0) {
                Some(j) => {
                    let id = slice_of(rest.as_slice(), 0, j);
                    assert(id@ == rest@.take(j as int));
                    string_of(id.as_slice())
                },
                None => String::from_str("unknown"),
            }
        },
        None => String::from_str("unknown"),
    }
}

/// What kind of sensor a line of the USB listing names, whatever the case
/// of its letters: a mobile sensor where it holds `mobile`, else a GNSS
/// sensor where it holds `gnss`, `gps` or `nmea`.
pub open spec fn line_kind(line: Seq<char>) -> Option<Seq<char>> {
    lowered_kind(lowercase(line))
}

/// The kind and the identifier of the first sensor that the lines name.
pub open spec fn first_usb_sensor(ls: Seq<Seq<char>>) -> Option<(Seq<char>, Seq<char>)>
    decreases ls.len(),
{
    if ls.len() == 0 {
        None
    } else {
        match line_kind(ls[0]) {
            Some(kind) => Some((kind, usb_id(ls[0]))),
            None => first_usb_sensor(ls.drop_first()),
        }
    }
}

/// The sensor that a USB listing names.
pub open spec fn usb_sensor(listing: Seq<char>) -> Option<(Seq<char>, Seq<char>)> {
    first_usb_sensor(lines(listing))
}

/// What kind of sensor a line in small letters names.
pub open spec fn lowered_kind(lower: Seq<char>) -> Option<Seq<char>> {
    if contains(lower, "mobile"@) {
        Some("mobile"@)
    } else if contains(lower, "gnss"@) || contains(lower, "gps"@) || contains(lower, "nmea"@) {
        Some("gnss"@)
    } else {
        None
    }
}

/// What kind of sensor a line names that was put into small letters.
pub fn kind_of_lowered(lower: &str) -> (k: Option<String>)
    ensures
        opt_view(k) == lowered_kind(lower@),
{
    let chars = chars_of(lower);
    if includes(chars.as_slice(), "mobile") {
        Some(String::from_str("mobile"))
    } else if includes(chars.as_slice(), "gnss") || includes(chars.as_slice(), "gps") || includes(
        chars.as_slice(),
        "nmea",
    ) {
        Some(String::from_str("gnss"))
    } else {
        None
    }
}

fn kind_of_line(line: &[char]) -> (k: Option<String>)
    ensures
        opt_view(k) == line_kind(line@),
{
    let text = string_of(line);
    let lower = to_lowercase(text.as_str());
    kind_of_lowered(lower.as_str())
}

/// The kind and the identifier of the sensor that a USB listing names.
pub fn scan_usb_listing(listing: &str) -> (r: Option<(String, String)>)
    ensures
        match usb_sensor(listing@) {
            Some((kind, id)) => r matches Some(found) && found.0@ == kind && found.1@ == id,
            None => r is None,
        },
{
    let text = chars_of(listing);
    let ls = split_lines(text.as_slice());
    let mut i: usize = 0;
    assert(rows(ls@).skip(0) == rows(ls@));
    while i < ls.len()
        invariant
            i <= ls.len(),
            rows(ls@) == lines(listing@),
            first_usb_sensor(rows(ls@)) == first_usb_sensor(rows(ls@).skip(i as int)),
        decreases ls.len() - i,
    {
        proof {
            assert(rows(ls@).skip(i as int).drop_first() == rows(ls@).skip(i + 1));
            assert(rows(ls@).skip(i as int)[0] == ls@[i as int]@);
        }
        match kind_of_line(ls[i].as_slice()) {
            Some(kind) => {
                let id = extract_usb_id_chars(ls[i].as_slice());
                return Some((kind, id));
            },
            None => {},
        }
        i += 1;
    }
    None
}

/// A value that the information script prints stands for something: it is
/// not empty and not one of the script's words for nothing.
pub open spec fn is_known(value: Seq<char>) -> bool {
    value.len() > 0 && value != "Missing"@ && value != "Locked/Unreadable"@
}

/// The value that a line gives under `label`: where the line holds the
/// label, what follows its first colon, without the white space around it,
/// if that stands for something.
pub open spec fn labelled_value(line: Seq<char>, label: Seq<char>) -> Option<Seq<char>> {
    if contains(line, label) {
        match find(line, seq![':']) {
            Some(c) => {
                let value = trim(line.skip(c + 1));
                if is_known(value) {
                    Some(value)
                } else {
                    None
                }
            },
            None => None,
        }
    } else {
        None
    }
}

/// The value that the last of the lines gives that gives one.
pub open spec fn last_value(ls: Seq<Seq<char>>, label: Seq<char>) -> Option<Seq<char>>
    decreases ls.len(),
{
    if ls.len() == 0 {
        None
    } else {
        match labelled_value(ls.last(), label) {
            Some(v) => Some(v),
            None => last_value(ls.drop_last(), label),
        }
    }
}

/// The IMEI and the IMSI that the output of the information script gives,
/// each under its label `SIM IMEI:` and `SIM IMSI:`.
pub open spec fn imei_imsi(output: Seq<char>) -> (Option<Seq<char>>, Option<Seq<char>>) {
    (last_value(lines(output), "SIM IMEI:"@), last_value(lines(output), "SIM IMSI:"@))
}

fn value_under(line: &[char], label: &str) -> (r: Option<String>)
    ensures
        opt_view(r) == labelled_value(line@, label@),
{
    if !includes(line, label) {
        return None;
    }
    let mut colon: Vec<char> = Vec::new();
    colon.push(':');
    assert(colon@ =~= seq![':']);
    match find_in(line, colon.as_slice(), 0) {
        Some(c) => {
            let rest = slice_of(line, c + 1, line.len());
            assert(rest@ == line@.skip(c + 1));
            let value = trimmed(rest.as_slice());
            let missing = chars_of("Missing");
            let locked = chars_of("Locked/Unreadable");
            if value.len() > 0 && !same_chars(value.as_slice(), missing.as_slice()) && !same_chars(
                value.as_slice(),
                locked.as_slice(),
            ) {
                Some(string_of(value.as_slice()))
            } else {
                None
            }
        },
        None => None,
    }
}

/// Reads the IMEI and the IMSI from the output of the information script.
pub fn parse_imei_imsi(output: &str) -> (r: (Option<String>, Option<String>))
    ensures
        (opt_view(r.0), opt_view(r.1)) == imei_imsi(output@),
{
    let text = chars_of(output);
    let ls = split_lines(text.as_slice());
    let mut imei: Option<String> = None;
    let mut imsi: Option<String> = None;
    let mut i: usize = 0;
    assert(rows(ls@).take(0) =~= Seq::empty());
    while i < ls.len()
        invariant
            i <= ls.len(),
            rows(ls@) == lines(output@),
            opt_view(imei) == last_value(rows(ls@).take(i as int), "SIM IMEI:"@),
            opt_view(imsi) == last_value(rows(ls@).take(i as int), "SIM IMSI:"@),
        decreases ls.len() - i,
    {
        proof {
            assert(rows(ls@).take(i + 1).drop_last() == rows(ls@).take(i as int));
            assert(rows(ls@).take(i + 1).last() == ls@[i as int]@);
        }
        match value_under(ls[i].as_slice(), "SIM IMEI:") {
            Some(v) => {
                imei = Some(v);
            },
            None => {},
        }
        match value_under(ls[i].as_slice(), "SIM IMSI:") {
            Some(v) => {
                imsi = Some(v);
            },
            None => {},
        }
        i += 1;
    }
    assert(rows(ls@).take(ls.len() as int) == rows(ls@));
    (imei, imsi)
}

/// The IMEI and the IMSI from the outputs of the information scripts that
/// were run, in the order in which they are tried: those of the first
/// output that gives either.
pub open spec fn first_imei_imsi(outputs: Seq<Seq<char>>) -> (
    Option<Seq<char>>,
    Option<Seq<char>>,
)
    decreases outputs.len(),
{
    if outputs.len() == 0 {
        (None, None)
    } else {
        let found = imei_imsi(outputs[0]);
        if found.0 is Some || found.1 is Some {
            found
        } else {
            first_imei_imsi(outputs.drop_first())
        }
    }
}

/// The IMEI and the IMSI from the outputs of the information scripts.
pub fn get_imei_imsi(outputs: &Vec<String>) -> (r: (Option<String>, Option<String>))
    ensures
        (opt_view(r.0), opt_view(r.1)) == first_imei_imsi(views(outputs@)),
{
    let mut i: usize = 0;
    assert(views(outputs@).skip(0) == views(outputs@));
    while i < outputs.len()
        invariant
            i <= outputs.len(),
            first_imei_imsi(views(outputs@)) == first_imei_imsi(views(outputs@).skip(i as int)),
        decreases outputs.len() - i,
    {
        proof {
            assert(views(outputs@).skip(i as int).drop_first() == views(outputs@).skip(i + 1));
            assert(views(outputs@).skip(i as int)[0] == outputs@[i as int]@);
        }
        let found = parse_imei_imsi(outputs[i].as_str());
        if found.0.is_some() || found.1.is_some() {
            return found;
        }
        i += 1;
    }
    (None, None)
}

/// The device nodes at which a GNSS receiver is looked for, in this order.
pub open spec fn gnss_nodes() -> Seq<Seq<char>> {
    seq!["/dev/ttyUSB0"@, "/dev/ttyACM0"@, "/dev/gps"@, "/dev/gps0"@]
}

/// The device nodes at which a GNSS receiver is looked for.
pub fn gnss_device_nodes() -> (nodes: Vec<String>)
    ensures
        views(nodes@) == gnss_nodes(),
{
    let mut nodes: Vec<String> = Vec::new();
    nodes.push(String::from_str("/dev/ttyUSB0"));
    nodes.push(String::from_str("/dev/ttyACM0"));
    nodes.push(String::from_str("/dev/gps"));
    nodes.push(String::from_str("/dev/gps0"));
    assert(views(nodes@) =~= gnss_nodes());
    nodes
}

/// The first of `nodes` that is among `existing`.
pub open spec fn first_existing(nodes: Seq<Seq<char>>, existing: Seq<Seq<char>>) -> Option<
    Seq<char>,
>
    decreases nodes.len(),
{
    if nodes.len() == 0 {
        None
    } else if existing.contains(nodes[0]) {
        Some(nodes[0])
    } else {
        first_existing(nodes.drop_first(), existing)
    }
}

fn is_among(list: &Vec<String>, s: &str) -> (b: bool)
    ensures
        b == views(list@).contains(s@),
{
    let mut j: usize = 0;
    while j < list.len()
        invariant
            j <= list.len(),
            forall|k: int| 0 <= k < j ==> views(list@)[k] != s@,
        decreases list.len() - j,
    {
        if str_eq(list[j].as_str(), s) {
            assert(views(list@)[j as int] == s@);
            return true;
        }
        j += 1;
    }
    false
}

fn first_node(existing: &Vec<String>) -> (r: Option<String>)
    ensures
        opt_view(r) == first_existing(gnss_nodes(), views(existing@)),
{
    let nodes = gnss_device_nodes();
    let mut i: usize = 0;
    assert(views(nodes@).skip(0) == views(nodes@));
    while i < nodes.len()
        invariant
            i <= nodes.len(),
            views(nodes@) == gnss_nodes(),
            first_existing(gnss_nodes(), views(existing@)) == first_existing(
                views(nodes@).skip(i as int),
                views(existing@),
            ),
        decreases nodes.len() - i,
    {
        proof {
            assert(views(nodes@).skip(i as int).drop_first() == views(nodes@).skip(i + 1));
            assert(views(nodes@).skip(i as int)[0] == nodes@[i as int]@);
        }
        if is_among(existing, nodes[i].as_str()) {
            return Some(nodes[i].clone());
        }
        i += 1;
    }
    None
}

/// What was learnt of the host by running its tools.
#[derive(Debug)]
pub struct HostProbe {
    /// What the USB listing printed; `None` where it could not be run.
    pub usb_listing: Option<String>,
    /// What each information script printed that exists and could be run,
    /// in the order in which the scripts are tried.
    pub script_outputs: Vec<String>,
    /// The GNSS device nodes that exist.
    pub existing_nodes: Vec<String>,
}

/// The sensor of a host. The USB listing is looked at first: a line that
/// names a mobile sensor gives one with the IMEI and IMSI of the
/// information scripts, a line that names a GNSS receiver gives one without.
/// Where the listing names no sensor, the first GNSS device node that
/// exists gives a GNSS sensor named by the node.
pub open spec fn detected(
    usb_listing: Option<Seq<char>>,
    script_outputs: Seq<Seq<char>>,
    existing_nodes: Seq<Seq<char>>,
) -> Option<RawSensorView> {
    let usb = match usb_listing {
        Some(listing) => usb_sensor(listing),
        None => None,
    };
    match usb {
        Some((kind, id)) => Some(
            RawSensorView {
                sensor_type: kind,
                sensor_id: id,
                imei: if kind == "mobile"@ {
                    first_imei_imsi(script_outputs).0
                } else {
                    None
                },
                imsi: if kind == "mobile"@ {
                    first_imei_imsi(script_outputs).1
                } else {
                    None
                },
                lat: None,
                lon: None,
                accuracy: None,
            },
        ),
        None => match first_existing(gnss_nodes(), existing_nodes) {
            Some(node) => Some(
                RawSensorView {
                    sensor_type: "gnss"@,
                    sensor_id: node,
                    imei: None,
                    imsi: None,
                    lat: None,
                    lon: None,
                    accuracy: None,
                },
            ),
            None => None,
        },
    }
}

/// Finds the geolocation sensor of a host in what its tools printed.
pub fn detect_geolocation_sensor(probe: &HostProbe) -> (r: Option<RawSensorData>)
    ensures
        sensor_view(r) == detected(
            opt_view(probe.usb_listing),
            views(probe.script_outputs@),
            views(probe.existing_nodes@),
        ),
{
    let usb = match &probe.usb_listing {
        Some(listing) => scan_usb_listing(listing.as_str()),
        None => None,
    };
    match usb {
        Some((kind, id)) => {
            let (imei, imsi) = if str_eq(kind.as_str(), "mobile") {
                get_imei_imsi(&probe.script_outputs)
            } else {
                (None, None)
            };
            Some(
                RawSensorData {
                    sensor_type: kind,
                    sensor_id: id,
                    imei,
                    imsi,
                    lat: None,
                    lon: None,
                    accuracy: None,
                },
            )
        },
        None => match first_node(&probe.existing_nodes) {
            Some(node) => Some(
                RawSensorData {
                    sensor_type: String::from_str("gnss"),
                    sensor_id: node,
                    imei: None,
                    imsi: None,
                    lat: None,
                    lon: None,
                    accuracy: None,
                },
            ),
            None => None,
        },
    }
}

/// The summary of a sensor for an identity quote: its kind, its
/// identifier, and the IMEI and IMSI where it has them. A GNSS sensor has an
/// empty `value`, a mobile sensor none.
pub open spec fn summary(s: RawSensorView) -> GeolocationView {
    GeolocationView {
        sensor_type: Some(s.sensor_type),
        sensor_id: Some(s.sensor_id),
        value: if s.sensor_type == "gnss"@ {
            Some(Seq::empty())
        } else {
            None
        },
        sensor_imei: s.imei,
        sensor_imsi: s.imsi,
    }
}

/// The summary of a sensor for an identity quote.
pub fn sensor_summary(sensor: &RawSensorData) -> (g: Geolocation)
    ensures
        g@ == summary(sensor@),
{
    Geolocation {
        sensor_type: Some(sensor.sensor_type.clone()),
        sensor_id: Some(sensor.sensor_id.clone()),
        value: if str_eq(sensor.sensor_type.as_str(), "gnss") {
            Some(String::new())
        } else {
            None
        },
        sensor_imei: sensor.imei.clone(),
        sensor_imsi: sensor.imsi.clone(),
    }
}

} // verus!
