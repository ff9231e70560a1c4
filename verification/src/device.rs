use vstd::prelude::*;

verus! {

/// The innermost record: a named device carrying a description plus ordered
/// metadata and data key/value pairs. Duplicate keys are permitted in both
/// pair sequences; pairs are only ever replaced wholesale or appended.
pub struct Device {
    pub name: String,
    pub metadata: Vec<(String, String)>,
    pub data: Vec<(String, String)>,
    pub description: String,
}

/// Mathematical model of a `Device`: every string as a sequence of characters.
#[verifier::ext_equal]
pub struct DeviceView {
    pub name: Seq<char>,
    pub metadata: Seq<(Seq<char>, Seq<char>)>,
    pub data: Seq<(Seq<char>, Seq<char>)>,
    pub description: Seq<char>,
}

/// The model of a sequence of key/value string pairs.
pub open spec fn kv_view(pairs: Seq<(String, String)>) -> Seq<(Seq<char>, Seq<char>)> {
    pairs.map_values(|p: (String, String)| (p.0@, p.1@))
}

impl View for Device {
    type V = DeviceView;

    open spec fn view(&self) -> DeviceView {
        DeviceView {
            name: self.name@,
            metadata: kv_view(self.metadata@),
            data: kv_view(self.data@),
            description: self.description@,
        }
    }
}

} // verus!
