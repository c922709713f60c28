use crate::text::text_eq;
use vstd::prelude::*;

verus! {

/// The application credentials registered with one remote server.
#[derive(Debug)]
pub struct InstanceRecord {
    pub hostname: String,
    pub client_id: String,
    pub client_secret: String,
}

impl View for InstanceRecord {
    type V = (Seq<char>, Seq<char>, Seq<char>);

    open spec fn view(&self) -> (Seq<char>, Seq<char>, Seq<char>) {
        (self.hostname@, self.client_id@, self.client_secret@)
    }
}

impl InstanceRecord {
    pub fn new(hostname: String, client_id: String, client_secret: String) -> (r: InstanceRecord)
        ensures
            r@ == (hostname@, client_id@, client_secret@),
    {
        InstanceRecord { hostname, client_id, client_secret }
    }

    /// A copy with the same fields.
    pub fn duplicate(&self) -> (r: InstanceRecord)
        ensures
            r@ == self@,
    {
        InstanceRecord {
            hostname: self.hostname.clone(),
            client_id: self.client_id.clone(),
            client_secret: self.client_secret.clone(),
        }
    }
}

/// A second registration for a hostname that already has one.
#[derive(Debug, Clone, Copy, PartialEq, Eq, Structural)]
pub struct RegistrationConflict;

/// The registrations, at most one per hostname, never changed once written.
#[derive(Debug)]
pub struct InstanceDirectory {
    pub records: Vec<InstanceRecord>,
}

/// Some record in `records` is for `host`.
pub open spec fn has_host(records: Seq<InstanceRecord>, host: Seq<char>) -> bool {
    exists|i: int| 0 <= i < records.len() && (#[trigger] records[i]).hostname@ == host
}

impl InstanceDirectory {
    /// Hostnames are unique.
    pub open spec fn wf(&self) -> bool {
        forall|i: int, j: int|
            0 <= i < j < self.records@.len() ==> (#[trigger] self.records@[i]).hostname@
                != (#[trigger] self.records@[j]).hostname@
    }

    pub fn new() -> (r: InstanceDirectory)
        ensures
            r.wf(),
            r.records@.len() == 0,
    {
        InstanceDirectory { records: Vec::new() }
    }

    fn position_of_host(&self, host: &str) -> (r: Option<usize>)
        ensures
            r is None ==> !has_host(self.records@, host@),
            r matches Some(i) ==> i < self.records@.len() && self.records@[i as int].hostname@
                == host@,
    {
        let mut i: usize = 0;
        while i < self.records.len()
            invariant
                i <= self.records@.len(),
                forall|k: int| 0 <= k < i ==> (#[trigger] self.records@[k]).hostname@ != host@,
            decreases self.records@.len() - i,
        {
            if text_eq(self.records[i].hostname.as_str(), host) {
                return Some(i);
            }
            i = i + 1;
        }
        None
    }

    /// The record for a hostname, if one was registered.
    pub fn find_by_hostname(&self, host: &str) -> (r: Option<InstanceRecord>)
        requires
            self.wf(),
        ensures
            r is None <==> !has_host(self.records@, host@),
            r matches Some(rec) ==> exists|i: int|
                0 <= i < self.records@.len() && (#[trigger] self.records@[i])@ == rec@
                    && rec.hostname@ == host@,
    {
        match self.position_of_host(host) {
            None => None,
            Some(i) => Some(self.records[i].duplicate()),
        }
    }

    /// The first record with this client id, if any.
    pub fn find_by_client_id(&self, client_id: &str) -> (r: Option<InstanceRecord>)
        ensures
            r is None <==> forall|i: int|
                0 <= i < self.records@.len() ==> (#[trigger] self.records@[i]).client_id@
                    != client_id@,
            r matches Some(rec) ==> exists|i: int|
                0 <= i < self.records@.len() && (#[trigger] self.records@[i])@ == rec@
                    && rec.client_id@ == client_id@,
    {
        let mut i: usize = 0;
        while i < self.records.len()
            invariant
                i <= self.records@.len(),
                forall|k: int| 0 <= k < i ==> (#[trigger] self.records@[k]).client_id@ != client_id@,
            decreases self.records@.len() - i,
        {
            if text_eq(self.records[i].client_id.as_str(), client_id) {
                return Some(self.records[i].duplicate());
            }
            i = i + 1;
        }
        None
    }

    /// Stores a new registration; refused when its hostname already has one,
    /// which is then kept as it was.
    pub fn insert(&mut self, record: InstanceRecord) -> (r: Result<(), RegistrationConflict>)
        requires
            old(self).wf(),
        ensures
            final(self).wf(),
            has_host(old(self).records@, record.hostname@) ==> r is Err && *final(self)
                == *old(self),
            !has_host(old(self).records@, record.hostname@) ==> r is Ok && final(self).records@
                == old(self).records@.push(record),
    {
        match self.position_of_host(record.hostname.as_str()) {
            Some(_) => Err(RegistrationConflict),
            None => {
                let ghost old_records = self.records@;
                self.records.push(record);
                proof {
                    assert forall|i: int, j: int|
                        0 <= i < j < self.records@.len() implies (#[trigger] self.records@[i]).hostname@
                        != (#[trigger] self.records@[j]).hostname@ by {
                        if j == old_records.len() {
                            assert(self.records@[i] == old_records[i]);
                        }
                    }
                }
                Ok(())
            },
        }
    }

    /// Stores a registration unless its hostname already has one, and returns
    /// the registration that stands: the first one for a hostname wins.
    pub fn register_or_fetch(&mut self, record: InstanceRecord) -> (r: InstanceRecord)
        requires
            old(self).wf(),
        ensures
            final(self).wf(),
            r.hostname@ == record.hostname@,
            has_host(old(self).records@, record.hostname@) ==> *final(self) == *old(self) && exists|
                i: int,
            | 0 <= i < old(self).records@.len() && (#[trigger] old(self).records@[i])@ == r@,
            !has_host(old(self).records@, record.hostname@) ==> r@ == record@
                && final(self).records@ == old(self).records@.push(record),
    {
        match self.position_of_host(record.hostname.as_str()) {
            Some(i) => self.records[i].duplicate(),
            None => {
                let kept = record.duplicate();
                let ghost old_records = self.records@;
                self.records.push(record);
                proof {
                    assert forall|i: int, j: int|
                        0 <= i < j < self.records@.len() implies (#[trigger] self.records@[i]).hostname@
                        != (#[trigger] self.records@[j]).hostname@ by {
                        if j == old_records.len() {
                            assert(self.records@[i] == old_records[i]);
                        }
                    }
                }
                kept
            },
        }
    }
}

} // verus!
