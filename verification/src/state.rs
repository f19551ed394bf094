//! The durable state: the configuration, the launch registry keyed by a
//! dense sequence number, and the single continuation-record slot. Queries
//! never mutate; lookups page by sequence number, descending.
use vstd::prelude::*;
use crate::msg::{Config, LaunchStatus, ReplyInfo};
use crate::launch::{launch_wf, Launch};
use crate::error::ContractError;

verus! {

/// The number of entries a paged query returns when no limit is given.
pub const DEFAULT_QUERY_LIMIT: u8 = 10;

/// The whole persisted state of the orchestrator.
pub struct State {
    pub config: Config,
    pub launches: Vec<Launch>,
    pub reply: Option<ReplyInfo>,
}

impl State {
    /// The registry is dense — each launch sits at the position its
    /// sequence number names — and every launch is well formed.
    pub open spec fn wf(self) -> bool {
        forall|i: int|
            0 <= i < self.launches@.len() ==> (#[trigger] self.launches@[i]).idx == i
                && launch_wf(self.launches@[i])
    }

    /// A fresh state with the given configuration and no launches.
    pub fn new_state(config: Config) -> (r: State)
        ensures
            r.config == config,
            r.launches@ =~= Seq::<Launch>::empty(),
            r.reply is None,
            r.wf(),
    {
        State { config, launches: Vec::new(), reply: None }
    }

    /// Looks one launch up by sequence number; succeeds exactly when the
    /// number has been assigned.
    pub fn load(&self, idx: u128) -> (r: Result<&Launch, ContractError>)
        ensures
            r is Ok <==> idx < self.launches@.len(),
            r is Ok ==> *r->Ok_0 == self.launches@[idx as int],
            r is Err ==> r->Err_0 is Std,
    {
        if idx < self.launches.len() as u128 {
            Ok(&self.launches[idx as usize])
        } else {
            Err(ContractError::Std { msg: "launch not found".to_owned() })
        }
    }

    /// Whether some launch has the given owner.
    pub fn owner_exists(&self, owner: &String) -> (r: bool)
        ensures
            r == exists|i: int|
                0 <= i < self.launches@.len() && (#[trigger] self.launches@[i]).owner@ == owner@,
    {
        let mut i: usize = 0;
        while i < self.launches.len()
            invariant
                0 <= i <= self.launches@.len(),
                forall|m: int|
                    0 <= m < i ==> (#[trigger] self.launches@[m]).owner@ != owner@,
            decreases self.launches@.len() - i,
        {
            if self.launches[i].owner == *owner {
                return true;
            }
            i += 1;
        }
        false
    }
}

/// The launches selected by a page walked downward from position `from`
/// (exclusive), keeping those satisfying `pred`, at most `limit` entries.
pub open spec fn page_desc(
    s: Seq<Launch>,
    pred: spec_fn(Launch) -> bool,
    from: int,
    limit: int,
) -> Seq<Launch>
    decreases from,
{
    if from <= 0 || limit <= 0 {
        Seq::empty()
    } else if pred(s[from - 1]) {
        seq![s[from - 1]] + page_desc(s, pred, from - 1, limit - 1)
    } else {
        page_desc(s, pred, from - 1, limit)
    }
}

/// The values behind a list of borrowed launches.
pub open spec fn deref_seq(s: Seq<&Launch>) -> Seq<Launch> {
    s.map_values(|l: &Launch| *l)
}

/// The downward walk position a paged query starts at.
pub open spec fn page_from(len: int, start_after: Option<u128>) -> int {
    match start_after {
        Some(sa) => if sa < len { sa as int } else { len },
        None => len,
    }
}

/// The entry cap of a paged query.
pub open spec fn page_limit(limit: Option<u8>) -> int {
    match limit {
        Some(l) => l as int,
        None => DEFAULT_QUERY_LIMIT as int,
    }
}

impl State {
    /// All launches, paged downward by sequence number from `start_after`
    /// (exclusive), at most `limit` entries (ten when not given).
    #[verifier::loop_isolation(false)]
    pub fn query_launches(&self, start_after: Option<u128>, limit: Option<u8>) -> (r: Vec<
        &Launch,
    >)
        ensures
            deref_seq(r@) == page_desc(
                self.launches@,
                (|l: Launch| true),
                page_from(self.launches@.len() as int, start_after),
                page_limit(limit),
            ),
    {
        let ghost s = self.launches@;
        let ghost pred = (|l: Launch| true);
        let lim: usize = match limit {
            Some(l) => l as usize,
            None => DEFAULT_QUERY_LIMIT as usize,
        };
        let mut from: usize = self.launches.len();
        match start_after {
            Some(sa) => {
                if sa < self.launches.len() as u128 {
                    from = sa as usize;
                }
            },
            None => {},
        }
        let ghost hi = from as int;
        let ghost lim0 = lim as int;
        let mut out: Vec<&Launch> = Vec::new();
        let mut i: usize = from;
        while i > 0 && out.len() < lim
        invariant
            0 <= i <= from,
            out@.len() <= lim,
            deref_seq(out@) + page_desc(s, pred, i as int, lim0 - out@.len()) =~= page_desc(
                s,
                pred,
                hi,
                lim0,
            ),
        decreases i,
        {
            i -= 1;
            let ghost out0 = out@;
            out.push(&self.launches[i]);
            proof {
                assert(deref_seq(out@) =~= deref_seq(out0).push(s[i as int]));
                assert(page_desc(s, pred, i + 1, lim0 - out0.len()) == seq![s[i as int]]
                    + page_desc(s, pred, i as int, lim0 - out0.len() - 1));
                assert(deref_seq(out@) + page_desc(s, pred, i as int, lim0 - out@.len())
                    =~= deref_seq(out0) + page_desc(s, pred, i + 1, lim0 - out0.len()));
            }
        }
        proof {
            assert(page_desc(s, pred, i as int, lim0 - out@.len()) =~= Seq::<Launch>::empty());
            assert(deref_seq(out@) + Seq::<Launch>::empty() =~= deref_seq(out@));
        }
        out
    }

    /// The launches of one owner, paged downward by sequence number.
    #[verifier::loop_isolation(false)]
    pub fn query_launches_by_owner(
        &self,
        owner: &String,
        start_after: Option<u128>,
        limit: Option<u8>,
    ) -> (r: Vec<&Launch>)
        ensures
            deref_seq(r@) == page_desc(
                self.launches@,
                (|l: Launch| l.owner@ == owner@),
                page_from(self.launches@.len() as int, start_after),
                page_limit(limit),
            ),
    {
        let ghost s = self.launches@;
        let ghost pred = (|l: Launch| l.owner@ == owner@);
        let lim: usize = match limit {
            Some(l) => l as usize,
            None => DEFAULT_QUERY_LIMIT as usize,
        };
        let mut from: usize = self.launches.len();
        match start_after {
            Some(sa) => {
                if sa < self.launches.len() as u128 {
                    from = sa as usize;
                }
            },
            None => {},
        }
        let ghost hi = from as int;
        let ghost lim0 = lim as int;
        let mut out: Vec<&Launch> = Vec::new();
        let mut i: usize = from;
        while i > 0 && out.len() < lim
        invariant
            0 <= i <= from,
            out@.len() <= lim,
            deref_seq(out@) + page_desc(s, pred, i as int, lim0 - out@.len()) =~= page_desc(
                s,
                pred,
                hi,
                lim0,
            ),
        decreases i,
        {
            i -= 1;
            if self.launches[i].owner == *owner {
                let ghost out0 = out@;
                out.push(&self.launches[i]);
                proof {
                    assert(deref_seq(out@) =~= deref_seq(out0).push(s[i as int]));
                    assert(page_desc(s, pred, i + 1, lim0 - out0.len()) == seq![s[i as int]]
                        + page_desc(s, pred, i as int, lim0 - out0.len() - 1));
                    assert(deref_seq(out@) + page_desc(s, pred, i as int, lim0 - out@.len())
                        =~= deref_seq(out0) + page_desc(s, pred, i + 1, lim0 - out0.len()));
                }
            } else {
                proof {
                    assert(page_desc(s, pred, i + 1, lim0 - out@.len()) == page_desc(
                        s,
                        pred,
                        i as int,
                        lim0 - out@.len(),
                    ));
                }
            }
        }
        proof {
            assert(page_desc(s, pred, i as int, lim0 - out@.len()) =~= Seq::<Launch>::empty());
            assert(deref_seq(out@) + Seq::<Launch>::empty() =~= deref_seq(out@));
        }
        out
    }

    /// The launches in one lifecycle status, paged downward by sequence
    /// number.
    #[verifier::loop_isolation(false)]
    pub fn query_launches_by_status(
        &self,
        status: LaunchStatus,
        start_after: Option<u128>,
        limit: Option<u8>,
    ) -> (r: Vec<&Launch>)
        ensures
            deref_seq(r@) == page_desc(
                self.launches@,
                (|l: Launch| l.status == status),
                page_from(self.launches@.len() as int, start_after),
                page_limit(limit),
            ),
    {
        let ghost s = self.launches@;
        let ghost pred = (|l: Launch| l.status == status);
        let lim: usize = match limit {
            Some(l) => l as usize,
            None => DEFAULT_QUERY_LIMIT as usize,
        };
        let mut from: usize = self.launches.len();
        match start_after {
            Some(sa) => {
                if sa < self.launches.len() as u128 {
                    from = sa as usize;
                }
            },
            None => {},
        }
        let ghost hi = from as int;
        let ghost lim0 = lim as int;
        let mut out: Vec<&Launch> = Vec::new();
        let mut i: usize = from;
        while i > 0 && out.len() < lim
        invariant
            0 <= i <= from,
            out@.len() <= lim,
            deref_seq(out@) + page_desc(s, pred, i as int, lim0 - out@.len()) =~= page_desc(
                s,
                pred,
                hi,
                lim0,
            ),
        decreases i,
        {
            i -= 1;
            if self.launches[i].status == status {
                let ghost out0 = out@;
                out.push(&self.launches[i]);
                proof {
                    assert(deref_seq(out@) =~= deref_seq(out0).push(s[i as int]));
                    assert(page_desc(s, pred, i + 1, lim0 - out0.len()) == seq![s[i as int]]
                        + page_desc(s, pred, i as int, lim0 - out0.len() - 1));
                    assert(deref_seq(out@) + page_desc(s, pred, i as int, lim0 - out@.len())
                        =~= deref_seq(out0) + page_desc(s, pred, i + 1, lim0 - out0.len()));
                }
            } else {
                proof {
                    assert(page_desc(s, pred, i + 1, lim0 - out@.len()) == page_desc(
                        s,
                        pred,
                        i as int,
                        lim0 - out@.len(),
                    ));
                }
            }
        }
        proof {
            assert(page_desc(s, pred, i as int, lim0 - out@.len()) =~= Seq::<Launch>::empty());
            assert(deref_seq(out@) + Seq::<Launch>::empty() =~= deref_seq(out@));
        }
        out
    }

    /// The highest-numbered launch whose sale carries the given external
    /// sale identifier; launches without an identifier count as carrying
    /// zero.
    #[verifier::loop_isolation(false)]
    pub fn query_launch_by_pilot_idx(&self, idx: u128) -> (r: Result<&Launch, ContractError>)
        ensures
            r is Ok <==> find_by_pilot_idx(self.launches@, idx, self.launches@.len() as int)
                >= 0,
            r is Ok ==> *r->Ok_0 == self.launches@[find_by_pilot_idx(
                self.launches@,
                idx,
                self.launches@.len() as int,
            )],
            r is Err ==> r->Err_0 is Std,
    {
        let ghost s = self.launches@;
        let mut i: usize = self.launches.len();
        while i > 0
        invariant
            0 <= i <= s.len(),
            find_by_pilot_idx(s, idx, s.len() as int) == find_by_pilot_idx(s, idx, i as int),
        decreases i,
        {
            i -= 1;
            let key: u128 = match &self.launches[i].pilot {
                Some(p) => match p.idx {
                    Some(v) => v,
                    None => 0,
                },
                None => 0,
            };
            if key == idx {
                proof {
                    assert(pilot_key(s[i as int]) == idx);
                    assert(find_by_pilot_idx(s, idx, i + 1) == i);
                }
                return Ok(&self.launches[i]);
            }
            proof {
                assert(find_by_pilot_idx(s, idx, i + 1) == find_by_pilot_idx(s, idx, i as int));
            }
        }
        Err(ContractError::Std { msg: "launch not found".to_owned() })
    }
}

/// The external sale identifier a launch is indexed under: its sale
/// identifier where one is recorded, zero otherwise.
pub open spec fn pilot_key(l: Launch) -> u128 {
    match l.pilot {
        Some(p) => match p.idx {
            Some(v) => v,
            None => 0,
        },
        None => 0,
    }
}

/// The position of the highest-numbered launch below `from` carrying the
/// given external sale identifier, or a negative number where none does.
pub open spec fn find_by_pilot_idx(s: Seq<Launch>, idx: u128, from: int) -> int
    decreases from,
{
    if from <= 0 {
        -1
    } else if pilot_key(s[from - 1]) == idx {
        from - 1
    } else {
        find_by_pilot_idx(s, idx, from - 1)
    }
}

} // verus!
