use vstd::prelude::*;
use crate::session::InstallationChoice;

verus! {

/// The result recorder: it holds the one persisted record of the final
/// disk/image choice. Recording overwrites: the record always reflects the
/// latest call only, never an accumulation of entries. A driver that persists
/// the record to a sink writes out `entry` after each call.
#[derive(Debug)]
pub struct Recorder {
    pub entry: Option<InstallationChoice>,
}

/// What one call of `record` with this disk and image does to the recorder:
/// afterwards the record holds exactly that choice, whatever it held before.
pub open spec fn records(pre: Recorder, post: Recorder, disk: Seq<char>, image: Seq<char>) -> bool {
    post.entry matches Some(e) && e.disk@ == disk && e.image@ == image
}

impl Recorder {
    pub fn new() -> (r: Recorder)
        ensures
            r.entry is None,
    {
        Recorder { entry: None }
    }

    /// Record the final choice, overwriting any earlier record.
    pub fn record(&mut self, disk: &String, image: &String)
        ensures
            records(*old(self), *final(self), disk@, image@),
    {
        self.entry = Some(InstallationChoice { disk: disk.clone(), image: image.clone() });
    }
}

/// Law: recording the same disk and image twice in sequence leaves the
/// record exactly as one call left it — the final content reflects the
/// latest call only (overwrite semantics), never duplicated entries.
pub proof fn lemma_record_idempotent(
    r0: Recorder,
    r1: Recorder,
    r2: Recorder,
    disk: Seq<char>,
    image: Seq<char>,
)
    requires
        records(r0, r1, disk, image),
        records(r1, r2, disk, image),
    ensures
        r1.entry matches Some(e1) && r2.entry matches Some(e2) && e2.disk@ == e1.disk@ && e2.image@
            == e1.image@,
{
}

} // verus!
