//! Camera-device descriptions: the formatting half of device listing. The
//! host backend query itself is I/O performed by the embedding layer, which
//! hands the queried device data in as plain values.

use vstd::prelude::*;

use crate::json::chars_to_string;
use crate::json::push_str_chars;

verus! {

/// What the host backend reports for one capture device.
pub struct CameraDevice {
    pub index: String,
    pub human_name: String,
    pub description: String,
}

/// The mathematical model of a `CameraDevice`.
pub struct CameraDeviceView {
    pub index: Seq<char>,
    pub human_name: Seq<char>,
    pub description: Seq<char>,
}

impl View for CameraDevice {
    type V = CameraDeviceView;

    open spec fn view(&self) -> CameraDeviceView {
        CameraDeviceView {
            index: self.index@,
            human_name: self.human_name@,
            description: self.description@,
        }
    }
}

/// The human-readable descriptor of one device:
/// `<index> - <name>: <description>`.
pub open spec fn descriptor(d: CameraDeviceView) -> Seq<char> {
    d.index + " - "@ + d.human_name + ": "@ + d.description
}

/// Formats the descriptor of one device.
pub fn describe(d: &CameraDevice) -> (r: String)
    ensures
        r@ == descriptor(d@),
{
    let mut out: Vec<char> = Vec::new();
    push_str_chars(&mut out, d.index.as_str());
    out.push(' ');
    out.push('-');
    out.push(' ');
    push_str_chars(&mut out, d.human_name.as_str());
    out.push(':');
    out.push(' ');
    push_str_chars(&mut out, d.description.as_str());
    proof {
        reveal_strlit(" - ");
        reveal_strlit(": ");
        assert(" - "@ =~= seq![' ', '-', ' ']);
        assert(": "@ =~= seq![':', ' ']);
        assert(out@ =~= descriptor(d@));
    }
    chars_to_string(&out)
}

/// Formats one descriptor per queried device, in the backend's order. An
/// empty query yields an empty list, never a failure.
pub fn list_cameras(devices: &Vec<CameraDevice>) -> (r: Vec<String>)
    ensures
        r@.len() == devices@.len(),
        forall|i: int| 0 <= i < devices@.len() ==> r@[i]@ == descriptor(devices@[i]@),
{
    let mut r: Vec<String> = Vec::new();
    let mut i: usize = 0;
    while i < devices.len()
        invariant
            i <= devices@.len(),
            r@.len() == i,
            forall|j: int| 0 <= j < i ==> r@[j]@ == descriptor(devices@[j]@),
        decreases devices@.len() - i,
    {
        let s = describe(&devices[i]);
        r.push(s);
        i = i + 1;
    }
    r
}

} // verus!
