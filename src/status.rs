//! The controller's status table and the per-port binding files.
//!
//! The status table has a header line and then one row per port:
//! `hub port status speed device sockfd local_busid`. A port whose socket
//! descriptor is zero has no device. For each other port a binding file
//! names the remote end: `remote_ip remote_port remote_busid`.

use vstd::prelude::*;
use crate::decimal::{decimal_digits, decimal_text, i32_of, parse_i32, parse_u32, u32_of};
use crate::text::{chars_of, lines, same_chars, split_lines, split_words, words};

verus! {

/// Where the probe reads: the status table, and the directory of the
/// binding files `port<N>`.
pub struct ProbeConfig {
    pub status_path: String,
    pub port_dir: String,
}

/// The content of the binding file of one port, as it was read.
pub struct BindingFile {
    pub port: u32,
    pub content: String,
}

/// Why the probe could not tell whether the device is attached.
pub enum ProbeError {
    /// The status table is missing: the virtual host controller is not active.
    Unavailable { path: String },
}

/// The port of a row of the status table that has a device bound: at least
/// six fields, a socket descriptor that reads as a nonzero `i32`, and a port
/// that reads as a `u32`.
pub open spec fn row_port(fields: Seq<Seq<char>>) -> Option<u32> {
    if fields.len() >= 6 {
        match i32_of(fields[5]) {
            Some(fd) => if fd != 0 {
                u32_of(fields[1])
            } else {
                None
            },
            None => None,
        }
    } else {
        None
    }
}

/// The ports of the rows in `rows` that have a device bound, in order.
pub open spec fn ports_of_rows(rows: Seq<Seq<char>>) -> Seq<u32>
    decreases rows.len(),
{
    if rows.len() == 0 {
        Seq::empty()
    } else {
        let before = ports_of_rows(rows.drop_last());
        match row_port(words(rows.last())) {
            Some(p) => before.push(p),
            None => before,
        }
    }
}

/// The ports with a device bound, in the order of the status table; the
/// first line is a header.
pub open spec fn bound_ports(status: Seq<char>) -> Seq<u32> {
    ports_of_rows(lines(status).drop_first())
}

/// A binding file's content names `host` and `busid`: at least three fields,
/// the first the remote address and the third the remote bus id.
pub open spec fn names_device(content: Seq<char>, host: Seq<char>, busid: Seq<char>) -> bool {
    let w = words(content);
    w.len() >= 3 && w[0] == host && w[2] == busid
}

/// `files[k]` is the first binding file read for `port`.
pub open spec fn first_for_port(files: Seq<BindingFile>, port: u32, k: int) -> bool {
    &&& 0 <= k < files.len()
    &&& files[k].port == port
    &&& forall|j: int| 0 <= j < k ==> files[j].port != port
}

/// The binding file read for `port` names the device.
pub open spec fn port_holds(
    files: Seq<BindingFile>,
    port: u32,
    host: Seq<char>,
    busid: Seq<char>,
) -> bool {
    exists|k: int| first_for_port(files, port, k) && names_device(files[k].content@, host, busid)
}

/// Some port with a device bound holds the wanted device.
pub open spec fn device_attached(
    status: Seq<char>,
    files: Seq<BindingFile>,
    host: Seq<char>,
    busid: Seq<char>,
) -> bool {
    exists|i: int| 0 <= i < bound_ports(status).len() && port_holds(files, #[trigger] bound_ports(status)[i], host, busid)
}

impl ProbeError {
    pub open spec fn message_view(&self) -> Seq<char> {
        match self {
            ProbeError::Unavailable { path } => "Status file not found: "@ + path@,
        }
    }

    /// The text that reports this error.
    pub fn message(&self) -> (r: String)
        ensures
            r@ == self.message_view(),
    {
        match self {
            ProbeError::Unavailable { path } => {
                let s = String::from_str("Status file not found: ");
                s.concat(path.as_str())
            },
        }
    }
}

impl ProbeConfig {
    /// The status table and binding files of the usual Linux virtual host controller.
    pub fn standard() -> (r: ProbeConfig)
        ensures
            r.status_path@ == "/sys/devices/platform/vhci_hcd.0/status"@,
            r.port_dir@ == "/var/run/vhci_hcd"@,
    {
        ProbeConfig {
            status_path: String::from_str("/sys/devices/platform/vhci_hcd.0/status"),
            port_dir: String::from_str("/var/run/vhci_hcd"),
        }
    }

    /// The path of the binding file of `port`: the port number unpadded.
    pub fn port_file_path(&self, port: u32) -> (r: String)
        ensures
            r@ == self.port_dir@ + "/port"@ + decimal_digits(port as nat),
    {
        let s = self.port_dir.clone();
        let s = s.concat("/port");
        let n = decimal_text(port);
        s.concat(n.as_str())
    }
}

/// The ports of the status table that have a device bound, in order.
pub fn bound_port_list(status: &str) -> (r: Vec<u32>)
    ensures
        r@ == bound_ports(status@),
{
    let chars = chars_of(status);
    let rows = split_lines(&chars);
    let ghost all = rows@.map_values(|l: Vec<char>| l@);
    let mut ports: Vec<u32> = Vec::new();
    if rows.len() == 0 {
        assert(all.drop_first() =~= Seq::<Seq<char>>::empty());
        return ports;
    }
    let mut i: usize = 1;
    while i < rows.len()
        invariant
            1 <= i <= rows@.len(),
            all == rows@.map_values(|l: Vec<char>| l@),
            all.len() == rows@.len(),
            ports@ == ports_of_rows(all.subrange(1, i as int)),
        decreases rows@.len() - i,
    {
        let fields = split_words(&rows[i]);
        let ghost fv = fields@.map_values(|w: Vec<char>| w@);
        assert(all.subrange(1, i + 1).drop_last() =~= all.subrange(1, i as int));
        assert(all.subrange(1, i + 1).last() == rows@[i as int]@);
        if fields.len() >= 6 {
            assert(fv[5] == fields@[5]@);
            assert(fv[1] == fields@[1]@);
            match parse_i32(&fields[5]) {
                Some(fd) => {
                    if fd != 0 {
                        match parse_u32(&fields[1]) {
                            Some(p) => {
                                ports.push(p);
                            },
                            None => {},
                        }
                    }
                },
                None => {},
            }
        }
        i = i + 1;
    }
    assert(all.subrange(1, all.len() as int) =~= all.drop_first());
    ports
}

/// Whether a binding file's content names the device `host`, `busid`.
pub fn binding_matches(content: &str, host: &str, busid: &str) -> (r: bool)
    ensures
        r == names_device(content@, host@, busid@),
{
    let fields = split_words(&chars_of(content));
    let ghost fv = fields@.map_values(|w: Vec<char>| w@);
    if fields.len() < 3 {
        return false;
    }
    assert(fv[0] == fields@[0]@);
    assert(fv[2] == fields@[2]@);
    let h = chars_of(host);
    let b = chars_of(busid);
    same_chars(&fields[0], &h) && same_chars(&fields[2], &b)
}

/// The index of the first binding file read for `port`.
fn find_binding(files: &Vec<BindingFile>, port: u32) -> (r: Option<usize>)
    ensures
        match r {
            Some(k) => first_for_port(files@, port, k as int),
            None => forall|j: int| 0 <= j < files@.len() ==> files@[j].port != port,
        },
{
    let mut k: usize = 0;
    while k < files.len()
        invariant
            k <= files@.len(),
            forall|j: int| 0 <= j < k ==> files@[j].port != port,
        decreases files@.len() - k,
    {
        if files[k].port == port {
            return Some(k);
        }
        k = k + 1;
    }
    None
}

/// Whether the device `host`, `busid` is attached: some row of the status
/// table with a device bound has a binding file that names it. The rows are
/// tried in order; a malformed row, or one whose binding file is not among
/// `files`, is passed over. `None` for the status table means it is missing.
pub fn check_attached(
    config: &ProbeConfig,
    status: Option<&str>,
    files: &Vec<BindingFile>,
    host: &str,
    busid: &str,
) -> (r: Result<bool, ProbeError>)
    ensures
        status is None ==> (r matches Err(ProbeError::Unavailable { path }) && path@
            == config.status_path@),
        status is Some ==> r == Ok::<bool, ProbeError>(
            device_attached(status->0@, files@, host@, busid@),
        ),
{
    let text = match status {
        None => {
            return Err(ProbeError::Unavailable { path: config.status_path.clone() });
        },
        Some(t) => t,
    };
    let ports = bound_port_list(text);
    let mut i: usize = 0;
    while i < ports.len()
        invariant
            i <= ports@.len(),
            ports@ == bound_ports(text@),
            status == Some(text),
            forall|j: int| 0 <= j < i ==> !port_holds(files@, #[trigger] ports@[j], host@, busid@),
        decreases ports@.len() - i,
    {
        let p = ports[i];
        match find_binding(files, p) {
            Some(k) => {
                if binding_matches(files[k].content.as_str(), host, busid) {
                    assert(port_holds(files@, p, host@, busid@));
                    assert(ports@[i as int] == p);
                    assert(device_attached(text@, files@, host@, busid@));
                    return Ok(true);
                }
                assert forall|k2: int|
                    first_for_port(files@, p, k2) implies !names_device(
                    files@[k2].content@,
                    host@,
                    busid@,
                ) by {
                    if k2 < k {
                        assert(files@[k2].port != p);
                    } else if k2 > k {
                        assert(files@[k as int].port == p);
                    }
                }
            },
            None => {},
        }
        i = i + 1;
    }
    Ok(false)
}

proof fn lemma_short_row_adds_no_port(rows: Seq<Seq<char>>, k: int, short: Seq<char>)
    requires
        0 <= k <= rows.len(),
        words(short).len() < 6,
    ensures
        ports_of_rows(rows.insert(k, short)) == ports_of_rows(rows),
    decreases rows.len(),
{
    let r2 = rows.insert(k, short);
    if k == rows.len() {
        assert(r2.drop_last() =~= rows);
    } else {
        assert(r2.drop_last() =~= rows.drop_last().insert(k, short));
        assert(r2.last() == rows.last());
        lemma_short_row_adds_no_port(rows.drop_last(), k, short);
    }
}

/// A row with fewer than six fields is passed over: adding one anywhere after
/// the header never changes whether the device is found.
pub proof fn lemma_short_row_skipped(
    status: Seq<char>,
    with_short: Seq<char>,
    k: int,
    short: Seq<char>,
    files: Seq<BindingFile>,
    host: Seq<char>,
    busid: Seq<char>,
)
    requires
        1 <= k <= lines(status).len(),
        lines(with_short) == lines(status).insert(k, short),
        words(short).len() < 6,
    ensures
        bound_ports(with_short) == bound_ports(status),
        device_attached(with_short, files, host, busid) == device_attached(
            status,
            files,
            host,
            busid,
        ),
{
    assert(lines(with_short).drop_first() =~= lines(status).drop_first().insert(k - 1, short));
    lemma_short_row_adds_no_port(lines(status).drop_first(), k - 1, short);
}

} // verus!
