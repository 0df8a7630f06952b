//! The replay guard.
//!
//! Each relayed message is keyed by the whole `(source_chain,
//! source_address, payload)` triple, so the same logical message always
//! yields the same id and distinct messages always yield distinct ids —
//! no digest, no collision. The set of settled ids grows monotonically and
//! entries are never removed: replay protection is permanent.

use vstd::prelude::*;

use crate::errors::ContractError;

verus! {

/// The key under which a settled message is remembered.
#[derive(Debug)]
pub struct MessageId {
    pub source_chain: String,
    pub source_address: String,
    pub payload: Vec<u8>,
}

impl View for MessageId {
    type V = (Seq<char>, Seq<char>, Seq<u8>);

    open spec fn view(&self) -> (Seq<char>, Seq<char>, Seq<u8>) {
        (self.source_chain@, self.source_address@, self.payload@)
    }
}

/// What one settlement did: the transfer it caused, and a block or time
/// marker for auditing.
#[derive(Debug)]
pub struct SettlementRecord {
    pub recipient: String,
    pub amount: u128,
    pub token: String,
    pub marker: u64,
}

/// One settled message: its id and its record.
#[derive(Debug)]
pub struct SettledEntry {
    pub id: MessageId,
    pub record: SettlementRecord,
}

/// The set of settled messages.
#[derive(Debug)]
pub struct SettledSet {
    pub entries: Vec<SettledEntry>,
}

/// Whether two byte buffers hold the same bytes.
fn bytes_eq(a: &Vec<u8>, b: &Vec<u8>) -> (r: bool)
    ensures
        r == (a@ == b@),
{
    let n = a.len();
    if n != b.len() {
        return false;
    }
    let mut i: usize = 0;
    while i < n
        invariant
            n == a@.len(),
            n == b@.len(),
            i <= n,
            forall|j: int| 0 <= j < i ==> a@[j] == b@[j],
        decreases n - i,
    {
        if a[i] != b[i] {
            return false;
        }
        i += 1;
    }
    proof {
        assert(a@ =~= b@);
    }
    true
}

/// Whether two message ids name the same relayed message.
fn id_eq(a: &MessageId, b: &MessageId) -> (r: bool)
    ensures
        r == (a@ == b@),
{
    if !(a.source_chain == b.source_chain) {
        return false;
    }
    if !(a.source_address == b.source_address) {
        return false;
    }
    bytes_eq(&a.payload, &b.payload)
}

impl SettledSet {
    /// The ids of the settled messages, in settlement order.
    pub open spec fn ids(self) -> Seq<(Seq<char>, Seq<char>, Seq<u8>)> {
        self.entries@.map(|i: int, e: SettledEntry| e.id@)
    }

    /// Well-formed: no id is recorded twice.
    pub open spec fn wf(self) -> bool {
        forall|i: int, j: int|
            0 <= i < j < self.ids().len() ==> self.ids()[i] != self.ids()[j]
    }

    /// An empty settled set: nothing has been settled yet.
    pub fn new() -> (s: SettledSet)
        ensures
            s.entries@.len() == 0,
            s.wf(),
    {
        SettledSet { entries: Vec::new() }
    }

    /// How many messages have been settled.
    pub fn len(&self) -> (n: usize)
        ensures
            n == self.entries@.len(),
    {
        self.entries.len()
    }

    /// Whether `id` was settled before.
    pub fn contains(&self, id: &MessageId) -> (b: bool)
        ensures
            b == self.ids().contains(id@),
    {
        let n = self.entries.len();
        let mut i: usize = 0;
        while i < n
            invariant
                n == self.entries@.len(),
                i <= n,
                forall|j: int| 0 <= j < i ==> #[trigger] self.entries@[j].id@ != id@,
            decreases n - i,
        {
            if id_eq(&self.entries[i].id, id) {
                proof {
                    assert(self.ids()[i as int] == self.entries@[i as int].id@);
                }
                return true;
            }
            i += 1;
        }
        proof {
            if self.ids().contains(id@) {
                let k = choose|k: int| 0 <= k < self.ids().len() && self.ids()[k] == id@;
                assert(self.ids()[k] == self.entries@[k].id@);
            }
        }
        false
    }

    /// Admits a message never settled before, recording its id and record,
    /// or rejects a replay, untouched. Executed within the caller's atomic
    /// unit of work, so the insertion and the balance effect commit or roll
    /// back together.
    pub fn mark_settled(&mut self, id: MessageId, record: SettlementRecord) -> (r: Result<
        (),
        ContractError,
    >)
        ensures
            old(self).ids().contains(id@) ==> r == Err::<(), ContractError>(
                ContractError::AlreadySettled,
            ) && *final(self) == *old(self),
            !old(self).ids().contains(id@) ==> {
                &&& r == Ok::<(), ContractError>(())
                &&& final(self).entries@.len() == old(self).entries@.len() + 1
                &&& final(self).ids() == old(self).ids().push(id@)
                &&& final(self).entries@.subrange(0, old(self).entries@.len() as int) == old(
                    self,
                ).entries@
                &&& final(self).entries@.last() == (SettledEntry { id, record })
            },
            old(self).wf() ==> final(self).wf(),
    {
        if self.contains(&id) {
            return Err(ContractError::AlreadySettled);
        }
        let ghost pre = *self;
        self.entries.push(SettledEntry { id, record });
        proof {
            assert forall|k: int| 0 <= k < self.ids().len() implies self.ids()[k] == pre.ids().push(
                id@,
            )[k] by {
                assert(self.ids()[k] == self.entries@[k].id@);
                if k < pre.entries@.len() {
                    assert(self.entries@[k] == pre.entries@[k]);
                    assert(pre.ids()[k] == pre.entries@[k].id@);
                }
            }
            assert(self.ids() =~= pre.ids().push(id@));
            assert(self.entries@.subrange(0, pre.entries@.len() as int) =~= pre.entries@);
            if pre.wf() {
                assert forall|i: int, j: int|
                    0 <= i < j < self.ids().len() implies self.ids()[i] != self.ids()[j] by {
                    if j < pre.ids().len() {
                        assert(pre.ids()[i] != pre.ids()[j]);
                    } else {
                        assert(self.ids()[j] == id@);
                        assert(self.ids()[i] == pre.ids()[i]);
                        assert(!pre.ids().contains(id@));
                    }
                }
            }
        }
        Ok(())
    }
}

} // verus!
