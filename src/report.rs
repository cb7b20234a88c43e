use vstd::prelude::*;

use crate::hex::{encode_hex, hex_text};

verus! {

/// A line indented by one tab.
pub open spec fn tabbed(x: Seq<char>) -> Seq<char> {
    "\t"@ + x
}

/// What a node reports once its session has settled.
pub struct NodeStatus {
    pub public_key: Vec<u8>,
    pub network_name: String,
    pub network_id: Vec<u8>,
    /// URL of the relay the session is connected to.
    pub relay_url: String,
    /// The session's direct addresses, once their set is initialised.
    pub addresses: Vec<String>,
    pub log_events: bool,
}

/// The status report, line by line: each heading followed by its values, indented, the
/// keys in lower-case hexadecimal, and a blank line at the end.
pub open spec fn status_text(
    public_key: Seq<u8>,
    name: Seq<char>,
    network_id: Seq<u8>,
    relay: Seq<char>,
    addresses: Seq<Seq<char>>,
    log_events: bool,
) -> Seq<Seq<char>> {
    seq![
        "node id:"@,
        tabbed(hex_text(public_key)),
        "network id:"@,
        tabbed(name),
        tabbed(hex_text(network_id)),
        "node relay server url:"@,
        tabbed(relay),
        "node listening addresses:"@,
    ] + addresses.map_values(|a: Seq<char>| tabbed(a)) + seq![
        "log events:"@,
        tabbed(if log_events { "enabled"@ } else { "disabled"@ }),
        ""@,
    ]
}

impl NodeStatus {
    /// The text of this status report.
    pub open spec fn text(&self) -> Seq<Seq<char>> {
        status_text(
            self.public_key@,
            self.network_name@,
            self.network_id@,
            self.relay_url@,
            self.addresses@.map_values(|a: String| a@),
            self.log_events,
        )
    }
}

fn tab_line(x: &str) -> (r: String)
    ensures
        r@ == tabbed(x@),
{
    let mut r = String::from_str("\t");
    r.append(x);
    r
}

/// Renders the status report as lines of text.
pub fn status_lines(status: &NodeStatus) -> (r: Vec<String>)
    ensures
        r@.map_values(|l: String| l@) == status.text(),
{
    let mut out: Vec<String> = Vec::new();
    out.push(String::from_str("node id:"));
    out.push(tab_line(encode_hex(status.public_key.as_slice()).as_str()));
    out.push(String::from_str("network id:"));
    out.push(tab_line(status.network_name.as_str()));
    out.push(tab_line(encode_hex(status.network_id.as_slice()).as_str()));
    out.push(String::from_str("node relay server url:"));
    out.push(tab_line(status.relay_url.as_str()));
    out.push(String::from_str("node listening addresses:"));
    let ghost head = out@;
    let ghost text = status.text();
    assert(forall|j: int| 0 <= j < 8 ==> #[trigger] head[j]@ == text[j]);
    let n = status.addresses.len();
    let mut i: usize = 0;
    while i < n
        invariant
            n == status.addresses@.len(),
            i <= n,
            out@.len() == 8 + i,
            forall|j: int| 0 <= j < 8 ==> #[trigger] out@[j] == head[j],
            forall|j: int| 0 <= j < i ==> #[trigger] out@[8 + j]@ == tabbed(status.addresses@[j]@),
        decreases n - i,
    {
        out.push(tab_line(status.addresses[i].as_str()));
        i += 1;
    }
    out.push(String::from_str("log events:"));
    if status.log_events {
        out.push(tab_line("enabled"));
    } else {
        out.push(tab_line("disabled"));
    }
    out.push(String::from_str(""));
    assert forall|j: int| 0 <= j < out@.len() implies #[trigger] out@[j]@ == text[j] by {
        if 8 <= j < 8 + n {
            assert(out@[8 + (j - 8)]@ == tabbed(status.addresses@[j - 8]@));
        }
    }
    assert(out@.map_values(|l: String| l@) =~= text);
    out
}

} // verus!
