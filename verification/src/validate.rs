//! Pure validation of a proposed distribution plan ("tokenomics"): category
//! and recipient counts, liquidity bounds derived from the sale fee, the
//! address/flows exclusivity rule, and exact vesting-schedule sums. Returns
//! the specific violated rule; accepts exactly the plans characterised by
//! [`validate_spec`].
use vstd::prelude::*;
use crate::msg::{CategoryTypes, FlowCreate, FlowSchedule, TokenomicsCategories, TokenomicsRecipient, DECIMAL_FRACTIONAL};
use crate::error::ContractError;
use crate::arith::{checked_mul_ratio, checked_add_u128, mul_div_floor, lemma_mul_ratio_le, lemma_le_div_iff};

verus! {

/// How many categories of the plan have the given kind.
pub open spec fn count_kind(s: Seq<TokenomicsCategories>, k: CategoryTypes) -> int
    decreases s.len(),
{
    if s.len() == 0 {
        0
    } else {
        count_kind(s.drop_last(), k) + if s.last().category_type == k { 1int } else { 0int }
    }
}

/// `i` is the position of the first category of kind `k`.
pub open spec fn is_first_of_kind(s: Seq<TokenomicsCategories>, k: CategoryTypes, i: int) -> bool {
    &&& 0 <= i < s.len()
    &&& s[i].category_type == k
    &&& forall|m: int| 0 <= m < i ==> s[m].category_type != k
}

/// The position of the first category of kind `k`, where one exists.
pub open spec fn kind_first(s: Seq<TokenomicsCategories>, k: CategoryTypes) -> int {
    choose|i: int| is_first_of_kind(s, k, i)
}

/// A plan with no category of kind `k` counts none, and conversely.
pub proof fn lemma_count_zero(s: Seq<TokenomicsCategories>, k: CategoryTypes)
    ensures
        count_kind(s, k) == 0 <==> (forall|m: int| 0 <= m < s.len() ==> s[m].category_type != k),
        count_kind(s, k) >= 0,
    decreases s.len(),
{
    if s.len() > 0 {
        lemma_count_zero(s.drop_last(), k);
        if forall|m: int| 0 <= m < s.len() ==> s[m].category_type != k {
            assert forall|m: int|
                0 <= m < s.len() - 1 implies #[trigger] s.drop_last()[m].category_type != k by {
                assert(s.drop_last()[m] == s[m]);
                assert(s[m].category_type != k);
            }
            assert(count_kind(s.drop_last(), k) == 0);
            assert(s.last().category_type != k);
            assert(count_kind(s, k) == 0);
        }
        if count_kind(s, k) == 0 {
            assert(count_kind(s.drop_last(), k) == 0);
            assert forall|m: int| 0 <= m < s.len() implies s[m].category_type != k by {
                if m < s.len() - 1 {
                    assert(s.drop_last()[m] == s[m]);
                    assert(s.drop_last()[m].category_type != k);
                } else {
                    assert(s.last().category_type != k);
                }
            }
        }
    }
}

/// A plan counting at least one category of kind `k` has a first one.
pub proof fn lemma_count_first(s: Seq<TokenomicsCategories>, k: CategoryTypes)
    requires
        count_kind(s, k) > 0,
    ensures
        is_first_of_kind(s, k, kind_first(s, k)),
    decreases s.len(),
{
    lemma_count_zero(s.drop_last(), k);
    if count_kind(s.drop_last(), k) > 0 {
        lemma_count_first(s.drop_last(), k);
        let i = kind_first(s.drop_last(), k);
        assert(is_first_of_kind(s.drop_last(), k, i));
        assert(s.drop_last()[i] == s[i]);
        assert forall|m: int| 0 <= m < i implies s[m].category_type != k by {
            assert(s.drop_last()[m] == s[m]);
            assert(s.drop_last()[m].category_type != k);
        }
        assert(is_first_of_kind(s, k, i));
    } else {
        assert(s.last().category_type == k);
        assert forall|m: int| 0 <= m < s.len() - 1 implies s[m].category_type != k by {
            assert(s.drop_last()[m] == s[m]);
            assert(s.drop_last()[m].category_type != k);
        }
        assert(is_first_of_kind(s, k, s.len() - 1));
    }
    assert(exists|i: int| is_first_of_kind(s, k, i));
}

/// The sum of the amounts of a list of schedules.
pub open spec fn schedules_sum(s: Seq<FlowSchedule>) -> int
    decreases s.len(),
{
    if s.len() == 0 {
        0
    } else {
        schedules_sum(s.drop_last()) + s.last().amount
    }
}

/// The sum of all schedule amounts over a list of flows.
pub open spec fn flows_total(s: Seq<FlowCreate>) -> int
    decreases s.len(),
{
    if s.len() == 0 {
        0
    } else {
        flows_total(s.drop_last()) + schedules_sum(s.last().schedules@)
    }
}

/// Schedule sums are never negative.
pub proof fn lemma_schedules_sum_nonneg(s: Seq<FlowSchedule>)
    ensures
        schedules_sum(s) >= 0,
    decreases s.len(),
{
    if s.len() > 0 {
        lemma_schedules_sum_nonneg(s.drop_last());
    }
}

/// Flow totals are never negative.
pub proof fn lemma_flows_total_nonneg(s: Seq<FlowCreate>)
    ensures
        flows_total(s) >= 0,
    decreases s.len(),
{
    if s.len() > 0 {
        lemma_flows_total_nonneg(s.drop_last());
        lemma_schedules_sum_nonneg(s.last().schedules@);
    }
}

/// Every prefix of a schedule list sums to at most the whole.
pub proof fn lemma_schedules_sum_prefix(s: Seq<FlowSchedule>, i: int)
    requires
        0 <= i <= s.len(),
    ensures
        0 <= schedules_sum(s.take(i)) <= schedules_sum(s),
    decreases s.len(),
{
    if s.len() == 0 {
    } else if i == s.len() {
        assert(s.take(i) =~= s);
        lemma_schedules_sum_prefix(s.drop_last(), s.len() - 1);
        assert(s.drop_last().take(s.len() - 1) =~= s.drop_last());
    } else {
        assert(s.take(i) =~= s.drop_last().take(i));
        lemma_schedules_sum_prefix(s.drop_last(), i);
    }
}

/// Every prefix of a flow list totals at most the whole.
pub proof fn lemma_flows_total_prefix(s: Seq<FlowCreate>, i: int)
    requires
        0 <= i <= s.len(),
    ensures
        0 <= flows_total(s.take(i)) <= flows_total(s),
    decreases s.len(),
{
    if s.len() == 0 {
    } else if i == s.len() {
        assert(s.take(i) =~= s);
        lemma_flows_total_prefix(s.drop_last(), s.len() - 1);
        assert(s.drop_last().take(s.len() - 1) =~= s.drop_last());
        lemma_schedules_sum_prefix(s.last().schedules@, s.last().schedules@.len() as int);
        assert(s.last().schedules@.take(s.last().schedules@.len() as int) =~= s.last().schedules@);
    } else {
        assert(s.take(i) =~= s.drop_last().take(i));
        lemma_flows_total_prefix(s.drop_last(), i);
        lemma_schedules_sum_prefix(s.last().schedules@, 0);
    }
}

/// Each single flow sums to at most the total over all flows.
pub proof fn lemma_flow_le_total(fs: Seq<FlowCreate>, f: int)
    requires
        0 <= f < fs.len(),
    ensures
        schedules_sum(fs[f].schedules@) <= flows_total(fs),
    decreases fs.len(),
{
    if f == fs.len() - 1 {
        lemma_flows_total_nonneg(fs.drop_last());
    } else {
        lemma_flow_le_total(fs.drop_last(), f);
        assert(fs.drop_last()[f] == fs[f]);
        lemma_schedules_sum_nonneg(fs.last().schedules@);
    }
}

/// A recipient that violates no rule satisfies the recipient predicate.
pub proof fn lemma_recipient_err_ok(k: CategoryTypes, label: String, r: TokenomicsRecipient)
    requires
        recipient_err(k, label, r) is None,
    ensures
        recipient_ok(k, r),
{
}

/// A recipient of a sale or liquidity category must name neither an address
/// nor flows; a standard recipient must name exactly one of the two, and
/// declared flows must sum exactly to the declared amount.
pub open spec fn recipient_ok(k: CategoryTypes, r: TokenomicsRecipient) -> bool {
    if k == CategoryTypes::Sale || k == CategoryTypes::Liquidity {
        r.address is None && r.flows is None
    } else {
        &&& (r.address is Some || r.flows is Some)
        &&& !(r.address is Some && r.flows is Some)
        &&& (r.flows is Some ==> flows_total(r.flows->Some_0@) == r.amount)
    }
}

/// The specific rule a recipient violates, if any, reported in the order the
/// rules are checked.
pub open spec fn recipient_err(k: CategoryTypes, label: String, r: TokenomicsRecipient) -> Option<
    ContractError,
> {
    if k == CategoryTypes::Sale || k == CategoryTypes::Liquidity {
        if !(r.address is None && r.flows is None) {
            Some(ContractError::RecipientNotRequired { label: label })
        } else {
            None
        }
    } else if r.address is None && r.flows is None {
        Some(ContractError::RecipientAddressOrFlowRequired { label: label })
    } else if r.address is Some && r.flows is Some {
        Some(ContractError::RecipientAddressAndFlow { label: label })
    } else if r.flows is Some && flows_total(r.flows->Some_0@) > u128::MAX {
        Some(ContractError::Overflow {})
    } else if r.flows is Some && flows_total(r.flows->Some_0@) != r.amount {
        Some(ContractError::FlowsInvalidAmount {
            label: label,
            flows_sum: flows_total(r.flows->Some_0@) as u128,
            amount: r.amount,
        })
    } else {
        None
    }
}

/// The first rule violated by a recipient of this category, if any.
pub open spec fn rcpts_err(k: CategoryTypes, label: String, rs: Seq<TokenomicsRecipient>) -> Option<
    ContractError,
>
    decreases rs.len(),
{
    if rs.len() == 0 {
        None
    } else {
        match recipient_err(k, label, rs[0]) {
            Some(e) => Some(e),
            None => rcpts_err(k, label, rs.drop_first()),
        }
    }
}

/// The first rule violated inside a category, if any.
pub open spec fn cat_err(c: TokenomicsCategories) -> Option<ContractError> {
    rcpts_err(c.category_type, c.label, c.recipients@)
}

/// The first rule violated across the categories, if any.
pub open spec fn cats_err(s: Seq<TokenomicsCategories>) -> Option<ContractError>
    decreases s.len(),
{
    if s.len() == 0 {
        None
    } else {
        match cat_err(s[0]) {
            Some(e) => Some(e),
            None => cats_err(s.drop_first()),
        }
    }
}

/// The declared amount of the single sale recipient.
pub open spec fn sale_amount(s: Seq<TokenomicsCategories>) -> u128 {
    s[kind_first(s, CategoryTypes::Sale)].recipients@[0].amount
}

/// The declared amount of the single liquidity recipient.
pub open spec fn liquidity_amount(s: Seq<TokenomicsCategories>) -> u128 {
    s[kind_first(s, CategoryTypes::Liquidity)].recipients@[0].amount
}

/// The exact outcome of validating a plan against a sale fee and a minimum
/// one-side liquidity ratio (both decimal fractions in atomics): `Ok` for
/// exactly the acceptable plans, and otherwise the first violated rule, in
/// the order the rules are checked.
pub open spec fn validate_spec(
    s: Seq<TokenomicsCategories>,
    sale_fee: u128,
    minimum_ratio: u128,
) -> Result<(), ContractError> {
    if count_kind(s, CategoryTypes::Sale) != 1 {
        Err(ContractError::OneSaleCategory {})
    } else if s[kind_first(s, CategoryTypes::Sale)].recipients@.len() != 1 {
        Err(ContractError::OneSaleCategoryRecipient {})
    } else if count_kind(s, CategoryTypes::Liquidity) != 1 {
        Err(ContractError::OneLiquidityCategory {})
    } else if s[kind_first(s, CategoryTypes::Liquidity)].recipients@.len() != 1 {
        Err(ContractError::OneLiquidityCategoryRecipient {})
    } else if sale_fee > DECIMAL_FRACTIONAL {
        Err(ContractError::Overflow {})
    } else if liquidity_amount(s) > mul_div_floor(
        sale_amount(s) as int,
        DECIMAL_FRACTIONAL - sale_fee,
        DECIMAL_FRACTIONAL as int,
    ) {
        Err(ContractError::LiquidityAmountSaleAmount {})
    } else if mul_div_floor(sale_amount(s) as int, minimum_ratio as int, DECIMAL_FRACTIONAL as int)
        > u128::MAX {
        Err(ContractError::Overflow {})
    } else if (liquidity_amount(s) as int) < mul_div_floor(
        sale_amount(s) as int,
        minimum_ratio as int,
        DECIMAL_FRACTIONAL as int,
    ) {
        Err(ContractError::LiquidityAmountBelowRequired { minimum_ratio })
    } else {
        match cats_err(s) {
            Some(e) => Err(e),
            None => Ok(()),
        }
    }
}

/// The structure of a plan that settlement relies on: single sale and
/// liquidity recipients, liquidity at most the sale amount, and every
/// category rule satisfied.
pub open spec fn plan_wf(s: Seq<TokenomicsCategories>) -> bool {
    &&& count_kind(s, CategoryTypes::Sale) == 1
    &&& is_first_of_kind(s, CategoryTypes::Sale, kind_first(s, CategoryTypes::Sale))
    &&& s[kind_first(s, CategoryTypes::Sale)].recipients@.len() == 1
    &&& count_kind(s, CategoryTypes::Liquidity) == 1
    &&& is_first_of_kind(s, CategoryTypes::Liquidity, kind_first(s, CategoryTypes::Liquidity))
    &&& s[kind_first(s, CategoryTypes::Liquidity)].recipients@.len() == 1
    &&& liquidity_amount(s) <= sale_amount(s)
    &&& cats_err(s) is None
}

/// Skipping categories that violate no rule does not change the first
/// violation.
proof fn lemma_cats_err_skip(s: Seq<TokenomicsCategories>, i: int)
    requires
        0 <= i <= s.len(),
        forall|m: int| 0 <= m < i ==> cat_err(s[m]) is None,
    ensures
        cats_err(s) == cats_err(s.skip(i)),
    decreases i,
{
    if i > 0 {
        assert(cat_err(s[0]) is None);
        lemma_cats_err_skip(s.drop_first(), i - 1);
        assert(s.drop_first().skip(i - 1) =~= s.skip(i));
    } else {
        assert(s.skip(0) =~= s);
    }
}

/// Skipping recipients that violate no rule does not change the first
/// violation.
proof fn lemma_rcpts_err_skip(k: CategoryTypes, label: String, rs: Seq<TokenomicsRecipient>, j: int)
    requires
        0 <= j <= rs.len(),
        forall|m: int| 0 <= m < j ==> recipient_err(k, label, rs[m]) is None,
    ensures
        rcpts_err(k, label, rs) == rcpts_err(k, label, rs.skip(j)),
    decreases j,
{
    if j > 0 {
        assert(recipient_err(k, label, rs[0]) is None);
        lemma_rcpts_err_skip(k, label, rs.drop_first(), j - 1);
        assert(rs.drop_first().skip(j - 1) =~= rs.skip(j));
    } else {
        assert(rs.skip(0) =~= rs);
    }
}

/// A plan violating no category rule has no violating category.
pub proof fn lemma_cats_err_none_all(s: Seq<TokenomicsCategories>)
    requires
        cats_err(s) is None,
    ensures
        forall|i: int| 0 <= i < s.len() ==> cat_err(s[i]) is None,
    decreases s.len(),
{
    if s.len() > 0 {
        assert(cat_err(s[0]) is None);
        lemma_cats_err_none_all(s.drop_first());
        assert forall|i: int| 0 <= i < s.len() implies cat_err(s[i]) is None by {
            if i > 0 {
                assert(s.drop_first()[i - 1] == s[i]);
                assert(cat_err(s.drop_first()[i - 1]) is None);
            }
        }
    }
}

/// A category violating no rule has no violating recipient.
pub proof fn lemma_rcpts_err_none_all(k: CategoryTypes, label: String, rs: Seq<TokenomicsRecipient>)
    requires
        rcpts_err(k, label, rs) is None,
    ensures
        forall|j: int| 0 <= j < rs.len() ==> recipient_err(k, label, rs[j]) is None,
    decreases rs.len(),
{
    if rs.len() > 0 {
        assert(recipient_err(k, label, rs[0]) is None);
        lemma_rcpts_err_none_all(k, label, rs.drop_first());
        assert forall|j: int| 0 <= j < rs.len() implies recipient_err(k, label, rs[j]) is None by {
            if j > 0 {
                assert(rs.drop_first()[j - 1] == rs[j]);
                assert(recipient_err(k, label, rs.drop_first()[j - 1]) is None);
            }
        }
    }
}

/// The sum of the schedule amounts, or `None` when it exceeds the working
/// width.
#[verifier::loop_isolation(false)]
pub fn sum_schedules(ss: &Vec<FlowSchedule>) -> (r: Option<u128>)
    ensures
        r == (if schedules_sum(ss@) <= u128::MAX {
            Some(schedules_sum(ss@) as u128)
        } else {
            None::<u128>
        }),
{
    let mut acc: u128 = 0;
    let mut i: usize = 0;
    while i < ss.len()
        invariant
            0 <= i <= ss@.len(),
            acc == schedules_sum(ss@.take(i as int)),
        decreases ss@.len() - i,
    {
        proof {
            assert(ss@.take(i + 1).drop_last() =~= ss@.take(i as int));
            assert(ss@.take(i + 1).last() == ss@[i as int]);
        }
        match checked_add_u128(acc, ss[i].amount) {
            Some(v) => {
                acc = v;
            },
            None => {
                proof {
                    lemma_schedules_sum_prefix(ss@, i + 1);
                }
                return None;
            },
        }
        i += 1;
    }
    proof {
        assert(ss@.take(ss@.len() as int) =~= ss@);
    }
    Some(acc)
}

/// The total of all schedule amounts over the flows, or `None` when it
/// exceeds the working width.
#[verifier::loop_isolation(false)]
pub fn sum_flows(fs: &Vec<FlowCreate>) -> (r: Option<u128>)
    ensures
        r == (if flows_total(fs@) <= u128::MAX {
            Some(flows_total(fs@) as u128)
        } else {
            None::<u128>
        }),
{
    let mut acc: u128 = 0;
    let mut i: usize = 0;
    while i < fs.len()
        invariant
            0 <= i <= fs@.len(),
            acc == flows_total(fs@.take(i as int)),
        decreases fs@.len() - i,
    {
        proof {
            assert(fs@.take(i + 1).drop_last() =~= fs@.take(i as int));
            assert(fs@.take(i + 1).last() == fs@[i as int]);
            lemma_flows_total_prefix(fs@, i + 1);
            lemma_flows_total_prefix(fs@, i as int);
            assert(flows_total(fs@.take(i + 1)) == flows_total(fs@.take(i as int))
                + schedules_sum(fs@[i as int].schedules@));
        }
        let fi = &fs[i];
        proof {
            assert(*fi == fs@[i as int]);
            lemma_schedules_sum_nonneg(fs@[i as int].schedules@);
        }
        let inner = match sum_schedules(&fi.schedules) {
            Some(v) => v,
            None => {
                proof {
                    assert(schedules_sum(fs@[i as int].schedules@) > u128::MAX);
                    assert(flows_total(fs@.take(i + 1)) > u128::MAX);
                    assert(flows_total(fs@) > u128::MAX);
                }
                return None;
            },
        };
        proof {
            assert(inner == schedules_sum(fs@[i as int].schedules@));
        }
        match checked_add_u128(acc, inner) {
            Some(v) => {
                acc = v;
                proof {
                    assert(acc == flows_total(fs@.take(i + 1)));
                }
            },
            None => {
                return None;
            },
        }
        i += 1;
    }
    proof {
        assert(fs@.take(fs@.len() as int) =~= fs@);
    }
    Some(acc)
}

/// The first violation found walking categories in order and recipients in
/// order is the first violation of the whole plan.
proof fn lemma_first_violation(s: Seq<TokenomicsCategories>, i: int, j: int, e: ContractError)
    requires
        0 <= i < s.len(),
        0 <= j < s[i].recipients@.len(),
        forall|m: int| 0 <= m < i ==> cat_err(s[m]) is None,
        forall|m: int|
            0 <= m < j ==> recipient_err(s[i].category_type, s[i].label, s[i].recipients@[m]) is None,
        recipient_err(s[i].category_type, s[i].label, s[i].recipients@[j]) == Some(e),
    ensures
        cats_err(s) == Some(e),
{
    let rs = s[i].recipients@;
    lemma_rcpts_err_skip(s[i].category_type, s[i].label, rs, j);
    assert(rs.skip(j)[0] == rs[j]);
    assert(rcpts_err(s[i].category_type, s[i].label, rs.skip(j)) == Some(e));
    assert(cat_err(s[i]) == Some(e));
    lemma_cats_err_skip(s, i);
    assert(s.skip(i)[0] == s[i]);
    assert(cats_err(s.skip(i)) == Some(e));
}

/// Validates a proposed plan against the sale fee of the sale engine and the
/// configured minimum one-side liquidity ratio. Accepts exactly the plans
/// that [`validate_spec`] accepts and reports the first violated rule.
#[verifier::loop_isolation(false)]
#[verifier::rlimit(60)]
pub fn validate_tokenomics(
    categories: &Vec<TokenomicsCategories>,
    sale_fee: u128,
    minimum_ratio: u128,
) -> (r: Result<(), ContractError>)
    ensures
        r == validate_spec(categories@, sale_fee, minimum_ratio),
        r is Ok ==> plan_wf(categories@),
{
    let s = categories;
    let ghost sq = categories@;
    let mut n_sale: usize = 0;
    let mut n_liq: usize = 0;
    let mut first_sale: Option<usize> = None;
    let mut first_liq: Option<usize> = None;
    let mut i: usize = 0;
    while i < s.len()
        invariant
            0 <= i <= sq.len(),
            sq == s@,
            n_sale == count_kind(sq.take(i as int), CategoryTypes::Sale),
            n_liq == count_kind(sq.take(i as int), CategoryTypes::Liquidity),
            n_sale <= i,
            n_liq <= i,
            match first_sale {
                Some(j) => j < i && is_first_of_kind(sq, CategoryTypes::Sale, j as int),
                None => forall|m: int|
                    0 <= m < i ==> sq[m].category_type != CategoryTypes::Sale,
            },
            match first_liq {
                Some(j) => j < i && is_first_of_kind(sq, CategoryTypes::Liquidity, j as int),
                None => forall|m: int|
                    0 <= m < i ==> sq[m].category_type != CategoryTypes::Liquidity,
            },
        decreases sq.len() - i,
    {
        proof {
            assert(sq.take(i + 1).drop_last() =~= sq.take(i as int));
            assert(sq.take(i + 1).last() == sq[i as int]);
        }
        match s[i].category_type {
            CategoryTypes::Sale => {
                if first_sale.is_none() {
                    first_sale = Some(i);
                }
                n_sale += 1;
            },
            CategoryTypes::Liquidity => {
                if first_liq.is_none() {
                    first_liq = Some(i);
                }
                n_liq += 1;
            },
            CategoryTypes::Standard => {},
        }
        i += 1;
    }
    proof {
        assert(sq.take(sq.len() as int) =~= sq);
    }
    if n_sale != 1 {
        return Err(ContractError::OneSaleCategory {});
    }
    let fs = match first_sale {
        Some(j) => j,
        None => {
            proof {
                lemma_count_zero(sq, CategoryTypes::Sale);
            }
            return Err(ContractError::OneSaleCategory {});
        },
    };
    proof {
        lemma_count_first(sq, CategoryTypes::Sale);
        let kf = kind_first(sq, CategoryTypes::Sale);
        assert(fs == kf) by {
            if fs < kf {
                assert(sq[fs as int].category_type != CategoryTypes::Sale);
            } else if kf < fs {
                assert(sq[kf].category_type != CategoryTypes::Sale);
            }
        }
    }
    if s[fs].recipients.len() != 1 {
        return Err(ContractError::OneSaleCategoryRecipient {});
    }
    if n_liq != 1 {
        return Err(ContractError::OneLiquidityCategory {});
    }
    let fl = match first_liq {
        Some(j) => j,
        None => {
            proof {
                lemma_count_zero(sq, CategoryTypes::Liquidity);
            }
            return Err(ContractError::OneLiquidityCategory {});
        },
    };
    proof {
        lemma_count_first(sq, CategoryTypes::Liquidity);
        let kf = kind_first(sq, CategoryTypes::Liquidity);
        assert(fl == kf) by {
            if fl < kf {
                assert(sq[fl as int].category_type != CategoryTypes::Liquidity);
            } else if kf < fl {
                assert(sq[kf].category_type != CategoryTypes::Liquidity);
            }
        }
    }
    if s[fl].recipients.len() != 1 {
        return Err(ContractError::OneLiquidityCategoryRecipient {});
    }
    if sale_fee > DECIMAL_FRACTIONAL {
        return Err(ContractError::Overflow {});
    }
    let s_amt = s[fs].recipients[0].amount;
    let l_amt = s[fl].recipients[0].amount;
    proof {
        lemma_mul_ratio_le(
            s_amt as int,
            (DECIMAL_FRACTIONAL - sale_fee) as int,
            DECIMAL_FRACTIONAL as int,
        );
    }
    let max_liq = checked_mul_ratio(
        s_amt,
        DECIMAL_FRACTIONAL - sale_fee,
        DECIMAL_FRACTIONAL,
    ).unwrap();
    if l_amt > max_liq {
        return Err(ContractError::LiquidityAmountSaleAmount {});
    }
    let min_liq = match checked_mul_ratio(s_amt, minimum_ratio, DECIMAL_FRACTIONAL) {
        Some(v) => v,
        None => {
            return Err(ContractError::Overflow {});
        },
    };
    if l_amt < min_liq {
        return Err(ContractError::LiquidityAmountBelowRequired { minimum_ratio });
    }
    let mut i: usize = 0;
    while i < s.len()
        invariant
            0 <= i <= sq.len(),
            forall|m: int| 0 <= m < i ==> cat_err(sq[m]) is None,
        decreases sq.len() - i,
    {
        let c = &s[i];
        let k = c.category_type;
        let mut j: usize = 0;
        while j < c.recipients.len()
            invariant
                0 <= j <= c.recipients@.len(),
                forall|m: int| 0 <= m < j ==> recipient_err(k, c.label, c.recipients@[m]) is None,
            decreases c.recipients@.len() - j,
        {
            let rct = &c.recipients[j];
            let is_sale_or_liq = match k {
                CategoryTypes::Sale => true,
                CategoryTypes::Liquidity => true,
                CategoryTypes::Standard => false,
            };
            if is_sale_or_liq {
                if !(rct.address.is_none() && rct.flows.is_none()) {
                    proof {
                        lemma_first_violation(
                            sq,
                            i as int,
                            j as int,
                            ContractError::RecipientNotRequired { label: c.label },
                        );
                    }
                    return Err(ContractError::RecipientNotRequired { label: c.label.clone() });
                }
            } else {
                if rct.address.is_none() && rct.flows.is_none() {
                    proof {
                        lemma_first_violation(
                            sq,
                            i as int,
                            j as int,
                            ContractError::RecipientAddressOrFlowRequired { label: c.label },
                        );
                    }
                    return Err(
                        ContractError::RecipientAddressOrFlowRequired { label: c.label.clone() },
                    );
                }
                if rct.address.is_some() && rct.flows.is_some() {
                    proof {
                        lemma_first_violation(
                            sq,
                            i as int,
                            j as int,
                            ContractError::RecipientAddressAndFlow { label: c.label },
                        );
                    }
                    return Err(ContractError::RecipientAddressAndFlow { label: c.label.clone() });
                }
                match &rct.flows {
                    Some(fv) => {
                        proof {
                            lemma_flows_total_nonneg(fv@);
                        }
                        match sum_flows(fv) {
                            None => {
                                proof {
                                    lemma_first_violation(
                                        sq,
                                        i as int,
                                        j as int,
                                        ContractError::Overflow {},
                                    );
                                }
                                return Err(ContractError::Overflow {});
                            },
                            Some(total) => {
                                if total != rct.amount {
                                    proof {
                                        lemma_first_violation(
                                            sq,
                                            i as int,
                                            j as int,
                                            ContractError::FlowsInvalidAmount {
                                                label: c.label,
                                                flows_sum: total,
                                                amount: rct.amount,
                                            },
                                        );
                                    }
                                    return Err(
                                        ContractError::FlowsInvalidAmount {
                                            label: c.label.clone(),
                                            flows_sum: total,
                                            amount: rct.amount,
                                        },
                                    );
                                }
                            },
                        }
                    },
                    None => {},
                }
            }
            proof {
                assert(recipient_err(k, c.label, c.recipients@[j as int]) is None);
            }
            j += 1;
        }
        proof {
            lemma_rcpts_err_skip(k, c.label, c.recipients@, c.recipients@.len() as int);
            assert(c.recipients@.skip(c.recipients@.len() as int) =~= Seq::<
                TokenomicsRecipient,
            >::empty());
            assert(cat_err(sq[i as int]) is None);
        }
        i += 1;
    }
    proof {
        lemma_cats_err_skip(sq, sq.len() as int);
        assert(sq.skip(sq.len() as int) =~= Seq::<TokenomicsCategories>::empty());
    }
    Ok(())
}

/// Finds the position of the first category of the given kind.
#[verifier::loop_isolation(false)]
pub fn find_kind_index(categories: &Vec<TokenomicsCategories>, k: CategoryTypes) -> (r: usize)
    requires
        is_first_of_kind(categories@, k, kind_first(categories@, k)),
    ensures
        r == kind_first(categories@, k),
{
    let ghost kf = kind_first(categories@, k);
    let mut i: usize = 0;
    while i < categories.len()
        invariant
            0 <= i <= categories@.len(),
            forall|m: int| 0 <= m < i ==> categories@[m].category_type != k,
        decreases categories@.len() - i,
    {
        if categories[i].category_type == k {
            proof {
                if i < kf {
                    assert(categories@[i as int].category_type != k);
                } else if kf < i {
                    assert(categories@[kf].category_type != k);
                }
            }
            return i;
        }
        i += 1;
    }
    proof {
        assert(categories@[kf].category_type != k);
    }
    unreached()
}

/// The declared amount of the single sale recipient of a well-formed plan.
pub fn sale_recipient_amount(categories: &Vec<TokenomicsCategories>) -> (r: u128)
    requires
        plan_wf(categories@),
    ensures
        r == sale_amount(categories@),
{
    let i = find_kind_index(categories, CategoryTypes::Sale);
    categories[i].recipients[0].amount
}

/// The declared amount of the single liquidity recipient of a well-formed
/// plan.
pub fn liquidity_recipient_amount(categories: &Vec<TokenomicsCategories>) -> (r: u128)
    requires
        plan_wf(categories@),
    ensures
        r == liquidity_amount(categories@),
{
    let i = find_kind_index(categories, CategoryTypes::Liquidity);
    categories[i].recipients[0].amount
}

/// Law: every plan the validator accepts holds exactly one sale category and
/// one liquidity category, each with exactly one recipient, and the
/// liquidity amount lies between the configured minimum share of the sale
/// amount and the fee-adjusted sale amount, up to integer truncation.
pub proof fn lemma_accepted_plan_shape(s: Seq<TokenomicsCategories>, sale_fee: u128, minimum_ratio: u128)
    requires
        validate_spec(s, sale_fee, minimum_ratio) is Ok,
    ensures
        count_kind(s, CategoryTypes::Sale) == 1,
        count_kind(s, CategoryTypes::Liquidity) == 1,
        is_first_of_kind(s, CategoryTypes::Sale, kind_first(s, CategoryTypes::Sale)),
        is_first_of_kind(s, CategoryTypes::Liquidity, kind_first(s, CategoryTypes::Liquidity)),
        s[kind_first(s, CategoryTypes::Sale)].recipients@.len() == 1,
        s[kind_first(s, CategoryTypes::Liquidity)].recipients@.len() == 1,
        sale_fee <= DECIMAL_FRACTIONAL,
        liquidity_amount(s) * DECIMAL_FRACTIONAL <= sale_amount(s) * (DECIMAL_FRACTIONAL - sale_fee),
        sale_amount(s) * minimum_ratio < (liquidity_amount(s) + 1) * DECIMAL_FRACTIONAL,
        liquidity_amount(s) <= sale_amount(s),
        plan_wf(s),
{
    lemma_count_first(s, CategoryTypes::Sale);
    lemma_count_first(s, CategoryTypes::Liquidity);
    let d = DECIMAL_FRACTIONAL as int;
    let sa = sale_amount(s) as int;
    let la = liquidity_amount(s) as int;
    lemma_le_div_iff(la, sa * (d - sale_fee), d);
    assert(la * d <= sa * (d - sale_fee));
    lemma_le_div_iff(la + 1, sa * (minimum_ratio as int), d);
    assert(sa * (minimum_ratio as int) < (la + 1) * d);
    lemma_mul_ratio_le(sa, d - sale_fee, d);
}

/// Law: in every plan the validator accepts, the schedule amounts of each
/// declared vesting-flow set sum exactly to the declared recipient amount.
pub proof fn lemma_accepted_flows_exact(
    s: Seq<TokenomicsCategories>,
    sale_fee: u128,
    minimum_ratio: u128,
    i: int,
    j: int,
)
    requires
        validate_spec(s, sale_fee, minimum_ratio) is Ok,
        0 <= i < s.len(),
        0 <= j < s[i].recipients@.len(),
        s[i].recipients@[j].flows is Some,
    ensures
        flows_total(s[i].recipients@[j].flows->Some_0@) == s[i].recipients@[j].amount,
{
    lemma_cats_err_none_all(s);
    lemma_rcpts_err_none_all(s[i].category_type, s[i].label, s[i].recipients@);
    assert(recipient_err(s[i].category_type, s[i].label, s[i].recipients@[j]) is None);
}

} // verus!

