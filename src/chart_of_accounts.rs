use vstd::prelude::*;

use crate::payment_allocation::new_random_id;
use crate::primitives::{CalaAccountSetId, Idempotent};

verus! {

/// A code in the chart of accounts, one number per section, from the root.
pub type AccountCode = Vec<u64>;

/// An account of the chart: its code, its parent's code and its name.
#[derive(Debug, Clone)]
pub struct AccountSpec {
    pub code: AccountCode,
    pub parent: Option<AccountCode>,
    pub name: String,
}

/// An account of the chart with the ledger account set that stands for it.
#[derive(Debug, Clone)]
pub struct ChartNode {
    pub spec: AccountSpec,
    pub account_set_id: CalaAccountSetId,
}

#[derive(Debug, Clone)]
pub enum ChartOfAccountsError {
    CodeNotFoundInChart(AccountCode),
}

pub type ChartId = u128;

/// A chart of accounts: a tree of account codes, each with its account set.
#[derive(Debug, Clone)]
pub struct Chart {
    pub id: ChartId,
    pub reference: String,
    pub name: String,
    /// In the order they were added.
    pub nodes: Vec<ChartNode>,
}

pub open spec fn code_of(n: ChartNode) -> Seq<u64> {
    n.spec.code@
}

pub open spec fn parent_of(n: ChartNode) -> Option<Seq<u64>> {
    match n.spec.parent {
        Some(p) => Some(p@),
        None => None,
    }
}

/// Position of the node with `code` among `nodes`, the last one if several.
pub open spec fn index_of(nodes: Seq<ChartNode>, code: Seq<u64>) -> Option<int>
    decreases nodes.len(),
{
    if nodes.len() == 0 {
        None
    } else if code_of(nodes.last()) == code {
        Some(nodes.len() - 1)
    } else {
        index_of(nodes.drop_last(), code)
    }
}

/// Account sets of `code` and of its ancestors, nearest first, following at
/// most `fuel` links.
pub open spec fn chain_from(nodes: Seq<ChartNode>, code: Seq<u64>, fuel: nat) -> Seq<
    CalaAccountSetId,
>
    decreases fuel,
{
    if fuel == 0 {
        Seq::empty()
    } else {
        match index_of(nodes, code) {
            None => Seq::empty(),
            Some(i) => seq![nodes[i].account_set_id] + match parent_of(nodes[i]) {
                None => Seq::empty(),
                Some(p) => chain_from(nodes, p, (fuel - 1) as nat),
            },
        }
    }
}

pub open spec fn spec_ancestors(nodes: Seq<ChartNode>, code: Seq<u64>) -> Seq<CalaAccountSetId> {
    match index_of(nodes, code) {
        None => Seq::empty(),
        Some(i) => match parent_of(nodes[i]) {
            None => Seq::empty(),
            Some(p) => chain_from(nodes, p, nodes.len() as nat),
        },
    }
}

proof fn lemma_index_of(nodes: Seq<ChartNode>, code: Seq<u64>)
    ensures
        index_of(nodes, code) matches Some(i) ==> 0 <= i < nodes.len() && code_of(nodes[i])
            == code,
        index_of(nodes, code) is None ==> forall|j: int|
            0 <= j < nodes.len() ==> code_of(#[trigger] nodes[j]) != code,
    decreases nodes.len(),
{
    if nodes.len() > 0 {
        lemma_index_of(nodes.drop_last(), code);
        if code_of(nodes.last()) != code {
            assert forall|j: int| 0 <= j < nodes.len() - 1 implies nodes.drop_last()[j]
                == nodes[j] by {}
        }
    }
}

fn codes_equal(a: &AccountCode, b: &AccountCode) -> (r: bool)
    ensures
        r == (a@ == b@),
{
    if a.len() != b.len() {
        return false;
    }
    let mut i: usize = 0;
    while i < a.len()
        invariant
            a@.len() == b@.len(),
            i <= a@.len(),
            forall|j: int| 0 <= j < i ==> a@[j] == b@[j],
        decreases a.len() - i,
    {
        if a[i] != b[i] {
            return false;
        }
        i = i + 1;
    }
    assert(a@ =~= b@);
    true
}

impl Chart {
    pub open spec fn nodes_view(&self) -> Seq<ChartNode> {
        self.nodes@
    }

    /// Position of the node with `code`, searching from the last one added.
    fn find(&self, code: &AccountCode) -> (r: Option<usize>)
        ensures
            r matches Some(i) ==> index_of(self.nodes@, code@) == Some(i as int) && i
                < self.nodes@.len(),
            r is None ==> index_of(self.nodes@, code@) is None,
    {
        let mut k: usize = self.nodes.len();
        assert(self.nodes@.subrange(0, k as int) =~= self.nodes@);
        while k > 0
            invariant
                k <= self.nodes@.len(),
                index_of(self.nodes@, code@) == index_of(self.nodes@.subrange(0, k as int), code@),
            decreases k,
        {
            let n = &self.nodes[k - 1];
            proof {
                let s = self.nodes@.subrange(0, k as int);
                assert(s.drop_last() =~= self.nodes@.subrange(0, k - 1));
                assert(s.last() == self.nodes@[k - 1]);
            }
            if codes_equal(&n.spec.code, code) {
                proof {
                    lemma_index_of(self.nodes@, code@);
                }
                return Some(k - 1);
            }
            k = k - 1;
        }
        None
    }

    /// A chart with no accounts yet.
    pub fn new(id: ChartId, name: String, reference: String) -> (r: Self)
        ensures
            r.id == id,
            r.name == name,
            r.reference == reference,
            r.nodes@.len() == 0,
    {
        Chart { id, reference, name, nodes: Vec::new() }
    }

    /// Adds an account under a fresh account set; an account whose code is
    /// already in the chart is ignored. Returns the parent's account set, when
    /// the parent is in the chart, and the new set.
    pub fn create_node(&mut self, spec: AccountSpec) -> (r: Idempotent<
        (Option<CalaAccountSetId>, CalaAccountSetId),
    >)
        ensures
            index_of(old(self).nodes@, spec.code@) is Some ==> r == Idempotent::<
                (Option<CalaAccountSetId>, CalaAccountSetId),
            >::Ignored && final(self).nodes@ == old(self).nodes@,
            index_of(old(self).nodes@, spec.code@) is None ==> (r matches Idempotent::Executed(
                (parent, id),
            ) && {
                &&& final(self).nodes@.len() == old(self).nodes@.len() + 1
                &&& final(self).nodes@.drop_last() == old(self).nodes@
                &&& final(self).nodes@.last().account_set_id == id
                &&& code_of(final(self).nodes@.last()) == spec.code@
                &&& parent_of(final(self).nodes@.last()) == match spec.parent {
                    Some(p) => Some(p@),
                    None => None::<Seq<u64>>,
                }
                &&& parent == match spec.parent {
                    None => None,
                    Some(p) => match index_of(old(self).nodes@, p@) {
                        None => None,
                        Some(i) => Some(old(self).nodes@[i].account_set_id),
                    },
                }
            }),
            final(self).id == old(self).id,
    {
        if self.find(&spec.code).is_some() {
            return Idempotent::Ignored;
        }
        let ledger_account_set_id = new_random_id();
        let parent = match &spec.parent {
            Some(p) => match self.find(p) {
                Some(i) => Some(self.nodes[i].account_set_id),
                None => None,
            },
            None => None,
        };
        proof {
            lemma_index_of(self.nodes@, spec.code@);
        }
        self.nodes.push(ChartNode { spec, account_set_id: ledger_account_set_id });
        proof {
            assert(self.nodes@.drop_last() =~= old(self).nodes@);
        }
        Idempotent::Executed((parent, ledger_account_set_id))
    }

    /// The account with `code`, if the chart has it.
    pub fn account_spec(&self, code: &AccountCode) -> (r: Option<&ChartNode>)
        ensures
            r matches Some(n) ==> (index_of(self.nodes@, code@) matches Some(i) && *n
                == self.nodes@[i]),
            r is None ==> index_of(self.nodes@, code@) is None,
    {
        match self.find(code) {
            Some(i) => {
                proof {
                    lemma_index_of(self.nodes@, code@);
                }
                Some(&self.nodes[i])
            },
            None => None,
        }
    }

    /// The account set of `code`, or an error naming the missing code.
    pub fn account_set_id_from_code(&self, code: &AccountCode) -> (r: Result<
        CalaAccountSetId,
        ChartOfAccountsError,
    >)
        ensures
            r matches Ok(id) ==> (index_of(self.nodes@, code@) matches Some(i) && id
                == self.nodes@[i].account_set_id),
            r matches Err(ChartOfAccountsError::CodeNotFoundInChart(c)) ==> (c@ == code@ && index_of(
                self.nodes@,
                code@,
            ) is None),
    {
        match self.account_spec(code) {
            Some(n) => Ok(n.account_set_id),
            None => Err(ChartOfAccountsError::CodeNotFoundInChart(code.clone())),
        }
    }

    /// The account sets of the ancestors of `code` (not of `code` itself),
    /// nearest first, the root last.
    pub fn ancestors(&self, code: &AccountCode) -> (r: Vec<CalaAccountSetId>)
        ensures
            r@ == spec_ancestors(self.nodes@, code@),
    {
        let mut result: Vec<CalaAccountSetId> = Vec::new();
        let start = match self.find(code) {
            Some(i) => i,
            None => {
                return result;
            },
        };
        proof {
            lemma_index_of(self.nodes@, code@);
        }
        let mut current: AccountCode = match &self.nodes[start].spec.parent {
            Some(p) => p.clone(),
            None => {
                return result;
            },
        };
        let mut fuel: usize = self.nodes.len();
        let ghost target = spec_ancestors(self.nodes@, code@);
        assert(target == chain_from(self.nodes@, current@, fuel as nat));
        while fuel > 0
            invariant
                target == spec_ancestors(self.nodes@, code@),
                target == result@ + chain_from(self.nodes@, current@, fuel as nat),
            decreases fuel,
        {
            let i = match self.find(&current) {
                Some(i) => i,
                None => {
                    assert(index_of(self.nodes@, current@) is None);
                    assert(chain_from(self.nodes@, current@, fuel as nat) =~= Seq::empty());
                    assert(result@ + Seq::<CalaAccountSetId>::empty() =~= result@);
                    return result;
                },
            };
            proof {
                lemma_index_of(self.nodes@, current@);
            }
            let ghost old_result = result@;
            let ghost old_current = current@;
            result.push(self.nodes[i].account_set_id);
            match &self.nodes[i].spec.parent {
                Some(p) => {
                    current = p.clone();
                    proof {
                        assert(parent_of(self.nodes@[i as int]) == Some(current@));
                        assert(old_result + chain_from(self.nodes@, old_current, fuel as nat)
                            =~= result@ + chain_from(self.nodes@, current@, (fuel - 1) as nat));
                    }
                },
                None => {
                    proof {
                        assert(old_result + chain_from(self.nodes@, old_current, fuel as nat)
                            =~= result@);
                    }
                    return result;
                },
            }
            fuel = fuel - 1;
        }
        assert(result@ + chain_from(self.nodes@, current@, 0) =~= result@);
        result
    }

    /// The account sets of the accounts whose parent is `code`, in the order
    /// they were added.
    pub fn children(&self, code: &AccountCode) -> (r: Vec<CalaAccountSetId>)
        ensures
            r@ == children_of(self.nodes@, code@),
    {
        let mut result: Vec<CalaAccountSetId> = Vec::new();
        let mut i: usize = 0;
        while i < self.nodes.len()
            invariant
                i <= self.nodes@.len(),
                result@ == children_of(self.nodes@.subrange(0, i as int), code@),
            decreases self.nodes.len() - i,
        {
            let n = &self.nodes[i];
            let is_child = match &n.spec.parent {
                Some(p) => codes_equal(p, code),
                None => false,
            };
            proof {
                let s = self.nodes@.subrange(0, i + 1);
                assert(s.drop_last() =~= self.nodes@.subrange(0, i as int));
                assert(s.last() == self.nodes@[i as int]);
            }
            if is_child {
                result.push(n.account_set_id);
            }
            i = i + 1;
        }
        assert(self.nodes@.subrange(0, i as int) =~= self.nodes@);
        result
    }

    /// The account sets of the accounts two sections deep, in the order they
    /// were added.
    pub fn all_trial_balance_accounts(&self) -> (r: Vec<CalaAccountSetId>)
        ensures
            r@ == trial_balance_of(self.nodes@),
    {
        let mut result: Vec<CalaAccountSetId> = Vec::new();
        let mut i: usize = 0;
        while i < self.nodes.len()
            invariant
                i <= self.nodes@.len(),
                result@ == trial_balance_of(self.nodes@.subrange(0, i as int)),
            decreases self.nodes.len() - i,
        {
            let n = &self.nodes[i];
            proof {
                let s = self.nodes@.subrange(0, i + 1);
                assert(s.drop_last() =~= self.nodes@.subrange(0, i as int));
                assert(s.last() == self.nodes@[i as int]);
            }
            if n.spec.code.len() == 2 {
                result.push(n.account_set_id);
            }
            i = i + 1;
        }
        assert(self.nodes@.subrange(0, i as int) =~= self.nodes@);
        result
    }
}

/// Account sets of the nodes whose parent is `code`, in order.
pub open spec fn children_of(nodes: Seq<ChartNode>, code: Seq<u64>) -> Seq<CalaAccountSetId>
    decreases nodes.len(),
{
    if nodes.len() == 0 {
        Seq::empty()
    } else if parent_of(nodes.last()) == Some(code) {
        children_of(nodes.drop_last(), code).push(nodes.last().account_set_id)
    } else {
        children_of(nodes.drop_last(), code)
    }
}

/// Account sets of the nodes whose code has two sections, in order.
pub open spec fn trial_balance_of(nodes: Seq<ChartNode>) -> Seq<CalaAccountSetId>
    decreases nodes.len(),
{
    if nodes.len() == 0 {
        Seq::empty()
    } else if code_of(nodes.last()).len() == 2 {
        trial_balance_of(nodes.drop_last()).push(nodes.last().account_set_id)
    } else {
        trial_balance_of(nodes.drop_last())
    }
}



} // verus!
