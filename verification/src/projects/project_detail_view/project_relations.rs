//! The customers related to a project: its stakeholders and the customers
//! that can still be added.
use vstd::prelude::*;

use crate::projects::project_detail_view::components::{item_of, StakeholderItemModel, StakeholderItemView};
use crate::seqs::{keep, lemma_keep_all, lemma_keep_keeps, lemma_keep_members, lemma_keep_step};
use crate::shared::customer::{
    customer_views, stakeholder_of, Customer, CustomerView, Stakeholder, StakeholderView,
};
use crate::shared::project::{Project, ProjectView};

verus! {

/// The content of a list of stakeholders.
pub open spec fn stakeholder_views(v: Seq<Stakeholder>) -> Seq<StakeholderView> {
    v.map_values(|s: Stakeholder| s@)
}

/// Holds of the stakeholders whose customer id is not `id`.
pub open spec fn other_stakeholder(id: i64) -> spec_fn(StakeholderView) -> bool {
    |s: StakeholderView| s.customer.id != id
}

/// The content of a list of stakeholder items.
pub open spec fn item_views(v: Seq<StakeholderItemView>) -> Seq<StakeholderItemModel> {
    v.map_values(|i: StakeholderItemView| i@)
}

/// The items made for stakeholders `v`, one each, in order.
pub open spec fn items_for(v: Seq<StakeholderView>) -> Seq<StakeholderItemModel> {
    v.map_values(|s: StakeholderView| item_of(s))
}

/// Holds of the items that do not show stakeholder `s`.
pub open spec fn other_than(s: StakeholderView) -> spec_fn(StakeholderItemModel) -> bool {
    |x: StakeholderItemModel| x.stakeholder != s
}

/// Holds of the customers that no stakeholder in `stakeholders` is.
pub open spec fn not_stakeholder(stakeholders: Seq<StakeholderView>) -> spec_fn(CustomerView<i64>) -> bool {
    |c: CustomerView<i64>| !(exists|k: int| 0 <= k < stakeholders.len() && (#[trigger] stakeholders[k]).customer.id == c.id)
}

/// The customers that can still be added: those of `customers` that are not
/// stakeholders yet, in order; none when the customers are not loaded.
pub open spec fn addable(customers: Option<Seq<CustomerView<i64>>>, stakeholders: Option<Seq<StakeholderView>>) -> Seq<CustomerView<i64>> {
    let all = match customers {
        Some(v) => v,
        None => Seq::empty(),
    };
    let current = match stakeholders {
        Some(v) => v,
        None => Seq::empty(),
    };
    keep(all, not_stakeholder(current))
}

/// The content of the relations of a project.
pub ghost struct RelationModel {
    pub customers: Option<Seq<CustomerView<i64>>>,
    pub initial_stakeholders: Option<Seq<StakeholderView>>,
    pub stakeholders: Option<Seq<StakeholderView>>,
    /// The stakeholder items, once they are made.
    pub items: Option<Seq<StakeholderItemModel>>,
    pub query: Seq<char>,
    pub saving: bool,
    pub filtered_customers: Seq<CustomerView<i64>>,
    pub project: Option<ProjectView<i64>>,
}

impl RelationModel {
    /// After adding `c` as a partner: unless it is a stakeholder already, it
    /// is appended to the stakeholders when they are loaded, and the items
    /// are made anew for the stakeholders (none when they are not loaded).
    pub open spec fn with_stakeholder(self, c: CustomerView<i64>) -> RelationModel {
        let s = stakeholder_of(c, None);
        match self.stakeholders {
            Some(v) => if v.contains(s) {
                self
            } else {
                RelationModel { stakeholders: Some(v.push(s)), items: Some(items_for(v.push(s))), ..self }
            },
            None => RelationModel { items: Some(Seq::empty()), ..self },
        }
    }

    /// After removing stakeholder `s`: every stakeholder that is its
    /// customer goes, and every item showing exactly `s`.
    pub open spec fn without_stakeholder(self, s: StakeholderView) -> RelationModel {
        RelationModel {
            stakeholders: match self.stakeholders {
                Some(v) => Some(keep(v, other_stakeholder(s.customer.id))),
                None => None,
            },
            items: match self.items {
                Some(v) => Some(keep(v, other_than(s))),
                None => None,
            },
            ..self
        }
    }

    /// Whether the relations section shows that there is no stakeholder.
    pub open spec fn relations_empty(self) -> bool {
        match self.items {
            Some(v) => v.len() == 0,
            None => true,
        }
    }
}

/// The customers related to a project and the customers it may relate to.
pub struct ProjectRelationView {
    pub customers: Option<Vec<Customer>>,
    pub initial_stakeholders: Option<Vec<Stakeholder>>,
    pub stakeholders: Option<Vec<Stakeholder>>,
    pub stakeholder_items: Option<Vec<StakeholderItemView>>,
    pub query: String,
    pub saving: bool,
    pub filtered_customers: Vec<Customer>,
    pub project: Option<Project>,
}

impl View for ProjectRelationView {
    type V = RelationModel;

    open spec fn view(&self) -> RelationModel {
        RelationModel {
            customers: match self.customers {
                Some(v) => Some(customer_views(v@)),
                None => None,
            },
            initial_stakeholders: match self.initial_stakeholders {
                Some(v) => Some(stakeholder_views(v@)),
                None => None,
            },
            stakeholders: match self.stakeholders {
                Some(v) => Some(stakeholder_views(v@)),
                None => None,
            },
            items: match self.stakeholder_items {
                Some(v) => Some(item_views(v@)),
                None => None,
            },
            query: self.query@,
            saving: self.saving,
            filtered_customers: customer_views(self.filtered_customers@),
            project: match self.project {
                Some(p) => Some(p@),
                None => None,
            },
        }
    }
}

/// Whether a stakeholder with the content of `s` is in `list`.
fn stakeholders_contain(list: &Vec<Stakeholder>, s: &Stakeholder) -> (r: bool)
    ensures
        r == stakeholder_views(list@).contains(s@),
{
    let n = list.len();
    let mut i: usize = 0;
    while i < n
        invariant
            n == list@.len(),
            i <= n,
            forall|k: int| 0 <= k < i ==> stakeholder_views(list@)[k] != s@,
        decreases n - i,
    {
        if list[i].same_as(s) {
            proof {
                assert(stakeholder_views(list@)[i as int] == s@);
            }
            return true;
        }
        i += 1;
    }
    false
}

/// Whether some stakeholder of `list` is the customer with `id`.
fn stakeholder_with_id(list: &Vec<Stakeholder>, id: i64) -> (r: bool)
    ensures
        r == exists|k: int| 0 <= k < stakeholder_views(list@).len() && (#[trigger] stakeholder_views(list@)[k]).customer.id == id,
{
    let n = list.len();
    let mut i: usize = 0;
    while i < n
        invariant
            n == list@.len(),
            i <= n,
            forall|k: int| 0 <= k < i ==> (#[trigger] stakeholder_views(list@)[k]).customer.id != id,
        decreases n - i,
    {
        if list[i].id == id {
            proof {
                assert(stakeholder_views(list@)[i as int].customer.id == id);
            }
            return true;
        }
        i += 1;
    }
    false
}

/// A copy of a list of stakeholders.
fn copy_stakeholders(list: &Vec<Stakeholder>) -> (r: Vec<Stakeholder>)
    ensures
        stakeholder_views(r@) == stakeholder_views(list@),
{
    let n = list.len();
    let mut r: Vec<Stakeholder> = Vec::new();
    let mut i: usize = 0;
    while i < n
        invariant
            n == list@.len(),
            i <= n,
            stakeholder_views(r@) == stakeholder_views(list@).take(i as int),
        decreases n - i,
    {
        let s = list[i].duplicate();
        proof {
            assert(stakeholder_views(list@)[i as int] == s@);
            assert(stakeholder_views(r@.push(s)) =~= stakeholder_views(r@).push(s@));
            assert(stakeholder_views(list@).take(i + 1) =~= stakeholder_views(list@).take(i as int).push(s@));
        }
        r.push(s);
        i += 1;
    }
    proof {
        assert(stakeholder_views(list@).take(n as int) =~= stakeholder_views(list@));
    }
    r
}

impl ProjectRelationView {
    /// No project, nothing loaded, an empty search.
    pub fn new() -> (s: Self)
        ensures
            s@.customers is None,
            s@.initial_stakeholders is None,
            s@.stakeholders is None,
            s@.items is None,
            s@.query == Seq::<char>::empty(),
            !s@.saving,
            s@.filtered_customers == Seq::<CustomerView<i64>>::empty(),
            s@.project is None,
    {
        let s = Self {
            customers: None,
            filtered_customers: Vec::new(),
            initial_stakeholders: None,
            query: String::new(),
            saving: false,
            stakeholders: None,
            stakeholder_items: None,
            project: None,
        };
        proof {
            assert(customer_views(s.filtered_customers@) =~= Seq::empty());
        }
        s
    }

    /// Makes one stakeholder item per stakeholder, in order.
    pub fn sync_stakeholders_views(&mut self, stakeholders: Vec<Stakeholder>)
        ensures
            final(self)@ == (RelationModel { items: Some(items_for(stakeholder_views(stakeholders@))), ..old(self)@ }),
    {
        let n = stakeholders.len();
        let ghost all = stakeholder_views(stakeholders@);
        let mut items: Vec<StakeholderItemView> = Vec::new();
        let mut i: usize = 0;
        while i < n
            invariant
                n == stakeholders@.len(),
                all == stakeholder_views(stakeholders@),
                i <= n,
                item_views(items@) == items_for(all.take(i as int)),
            decreases n - i,
        {
            let item = StakeholderItemView::new(stakeholders[i].duplicate());
            proof {
                assert(all[i as int] == stakeholders@[i as int]@);
                assert(item_views(items@.push(item)) =~= item_views(items@).push(item@));
                assert(items_for(all.take(i + 1)) =~= items_for(all.take(i as int)).push(item_of(all[i as int])));
            }
            items.push(item);
            i += 1;
        }
        proof {
            assert(all.take(n as int) =~= all);
        }
        self.stakeholder_items = Some(items);
    }

    /// Adds `customer` as a partner of the project unless it is one already;
    /// the stakeholder items are then made anew.
    pub fn add_stakeholder(&mut self, customer: Customer)
        ensures
            final(self)@ == old(self)@.with_stakeholder(customer@),
    {
        let new_stakeholder = Stakeholder::new(customer, None);
        match self.stakeholders.as_mut() {
            Some(stakeholders) => {
                if stakeholders_contain(stakeholders, &new_stakeholder) {
                    return;
                }
                proof {
                    assert(stakeholder_views(stakeholders@.push(new_stakeholder)) =~= stakeholder_views(
                        stakeholders@,
                    ).push(new_stakeholder@));
                }
                stakeholders.push(new_stakeholder);
            },
            None => {},
        }
        let current = match &self.stakeholders {
            Some(v) => copy_stakeholders(v),
            None => {
                let e: Vec<Stakeholder> = Vec::new();
                proof {
                    assert(stakeholder_views(e@) =~= Seq::empty());
                    assert(items_for(stakeholder_views(e@)) =~= Seq::empty());
                }
                e
            },
        };
        self.sync_stakeholders_views(current);
    }

    /// Sets the project whose relations are shown.
    pub fn set_project(&mut self, project: Project)
        ensures
            final(self)@ == (RelationModel { project: Some(project@), ..old(self)@ }),
    {
        self.project = Some(project);
    }

    /// The customers loaded from the store.
    pub fn set_customers(&mut self, customers: Vec<Customer>)
        ensures
            final(self)@ == (RelationModel { customers: Some(customer_views(customers@)), ..old(self)@ }),
    {
        self.customers = Some(customers);
    }

    /// The stakeholders loaded from the store: both the current and the
    /// initial ones.
    pub fn set_initial_stakeholders(&mut self, stakeholders: Vec<Stakeholder>)
        ensures
            final(self)@ == (RelationModel {
                stakeholders: Some(stakeholder_views(stakeholders@)),
                initial_stakeholders: Some(stakeholder_views(stakeholders@)),
                items: Some(items_for(stakeholder_views(stakeholders@))),
                ..old(self)@
            }),
    {
        let initial = copy_stakeholders(&stakeholders);
        let shown = copy_stakeholders(&stakeholders);
        self.stakeholders = Some(stakeholders);
        self.initial_stakeholders = Some(initial);
        self.sync_stakeholders_views(shown);
    }

    /// Removes every stakeholder that is the customer of `stakeholder`.
    pub fn remove_stakeholder(&mut self, stakeholder: &Stakeholder)
        ensures
            final(self)@ == old(self)@.without_stakeholder(stakeholder@),
    {
        let id = stakeholder.id;
        let kept = match &self.stakeholders {
            Some(stakeholders) => {
                let n = stakeholders.len();
                let ghost all = stakeholder_views(stakeholders@);
                let ghost pred = other_stakeholder(id);
                let mut kept: Vec<Stakeholder> = Vec::new();
                let mut i: usize = 0;
                while i < n
                    invariant
                        n == stakeholders@.len(),
                        all == stakeholder_views(stakeholders@),
                        pred == other_stakeholder(id),
                        i <= n,
                        stakeholder_views(kept@) == keep(all.take(i as int), pred),
                    decreases n - i,
                {
                    proof {
                        lemma_keep_step(all, pred, i as int);
                    }
                    if stakeholders[i].id != id {
                        let s = stakeholders[i].duplicate();
                        proof {
                            assert(stakeholder_views(kept@.push(s)) =~= stakeholder_views(kept@).push(s@));
                        }
                        kept.push(s);
                    }
                    i += 1;
                }
                proof {
                    assert(all.take(n as int) =~= all);
                }
                Some(kept)
            },
            None => None,
        };
        let kept_items = match &self.stakeholder_items {
            Some(items) => {
                let n = items.len();
                let ghost all = item_views(items@);
                let ghost pred = other_than(stakeholder@);
                let mut kept: Vec<StakeholderItemView> = Vec::new();
                let mut i: usize = 0;
                while i < n
                    invariant
                        n == items@.len(),
                        all == item_views(items@),
                        pred == other_than(stakeholder@),
                        i <= n,
                        item_views(kept@) == keep(all.take(i as int), pred),
                    decreases n - i,
                {
                    proof {
                        lemma_keep_step(all, pred, i as int);
                    }
                    if !items[i].stakeholder.same_as(stakeholder) {
                        let item = items[i].duplicate();
                        proof {
                            assert(all[i as int] == items@[i as int]@);
                            assert(item_views(kept@.push(item)) =~= item_views(kept@).push(item@));
                        }
                        kept.push(item);
                    }
                    i += 1;
                }
                proof {
                    assert(all.take(n as int) =~= all);
                }
                Some(kept)
            },
            None => None,
        };
        self.stakeholders = kept;
        self.stakeholder_items = kept_items;
    }

    /// Whether the relations section shows that there is no stakeholder.
    pub fn relations_empty(&self) -> (r: bool)
        ensures
            r == self@.relations_empty(),
    {
        match &self.stakeholder_items {
            Some(v) => v.len() == 0,
            None => true,
        }
    }

    /// The customers that can still be added, in list order.
    pub fn addable_customers(&self) -> (r: Vec<Customer>)
        ensures
            customer_views(r@) == addable(self@.customers, self@.stakeholders),
    {
        let empty_customers: Vec<Customer> = Vec::new();
        let empty_stakeholders: Vec<Stakeholder> = Vec::new();
        let all = match &self.customers {
            Some(v) => v,
            None => &empty_customers,
        };
        let current = match &self.stakeholders {
            Some(v) => v,
            None => &empty_stakeholders,
        };
        proof {
            assert(customer_views(empty_customers@) =~= Seq::empty());
            assert(stakeholder_views(empty_stakeholders@) =~= Seq::empty());
        }
        let n = all.len();
        let ghost whole = customer_views(all@);
        let ghost pred = not_stakeholder(stakeholder_views(current@));
        let mut r: Vec<Customer> = Vec::new();
        let mut i: usize = 0;
        while i < n
            invariant
                n == all@.len(),
                whole == customer_views(all@),
                pred == not_stakeholder(stakeholder_views(current@)),
                i <= n,
                customer_views(r@) == keep(whole.take(i as int), pred),
            decreases n - i,
        {
            proof {
                lemma_keep_step(whole, pred, i as int);
            }
            if !stakeholder_with_id(current, all[i].id) {
                let c = all[i].duplicate();
                proof {
                    assert(customer_views(r@.push(c)) =~= customer_views(r@).push(c@));
                }
                r.push(c);
            }
            i += 1;
        }
        proof {
            assert(whole.take(n as int) =~= whole);
        }
        r
    }
}

/// Adding the same customer twice is the same as adding it once.
pub proof fn law_add_stakeholder_idempotent(m: RelationModel, c: CustomerView<i64>)
    ensures
        m.with_stakeholder(c).with_stakeholder(c) == m.with_stakeholder(c),
{
    if let Some(v) = m.stakeholders {
        let s = stakeholder_of(c, None);
        if !v.contains(s) {
            assert(v.push(s)[v.len() as int] == s);
        }
    }
}

/// Once a customer is a stakeholder it is no longer offered for adding.
pub proof fn law_added_not_addable(m: RelationModel, c: CustomerView<i64>)
    requires
        m.stakeholders is Some,
    ensures
        !addable(m.customers, m.with_stakeholder(c).stakeholders).contains(c),
{
    let r = m.with_stakeholder(c);
    let v = r.stakeholders.unwrap();
    let s = stakeholder_of(c, None);
    let k0 = choose|k: int| 0 <= k < v.len() && v[k] == s;
    if !m.stakeholders.unwrap().contains(s) {
        assert(v[m.stakeholders.unwrap().len() as int] == s);
    }
    assert(v.contains(s));
    let all = match m.customers {
        Some(w) => w,
        None => Seq::empty(),
    };
    let p = not_stakeholder(v);
    lemma_keep_members(all, p);
    let res = keep(all, p);
    if res.contains(c) {
        let j = choose|j: int| 0 <= j < res.len() && res[j] == c;
        assert(p(res[j]));
        assert(v[k0].customer.id == c.id);
    }
}

/// After removing a stakeholder, no stakeholder is that customer, and no
/// stakeholder item shows it.
pub proof fn law_removed_stakeholder_gone(m: RelationModel, s: StakeholderView)
    ensures
        m.without_stakeholder(s).stakeholders matches Some(v) ==> forall|k: int|
            0 <= k < v.len() ==> (#[trigger] v[k]).customer.id != s.customer.id,
        m.without_stakeholder(s).items matches Some(v) ==> forall|k: int|
            0 <= k < v.len() ==> (#[trigger] v[k]).stakeholder != s,
{
    let id = s.customer.id;
    if let Some(v) = m.stakeholders {
        let p = other_stakeholder(id);
        lemma_keep_members(v, p);
        let r = keep(v, p);
        assert forall|k: int| 0 <= k < r.len() implies (#[trigger] r[k]).customer.id != id by {
            assert(p(r[k]));
        }
    }
    if let Some(v) = m.items {
        let p = other_than(s);
        lemma_keep_members(v, p);
        let r = keep(v, p);
        assert forall|k: int| 0 <= k < r.len() implies (#[trigger] r[k]).stakeholder != s by {
            assert(p(r[k]));
        }
    }
}

/// Adding a customer that is not related yet, then removing it again, gives
/// back the stakeholders as they were.
pub proof fn law_remove_undoes_add_stakeholder(m: RelationModel, c: CustomerView<i64>)
    requires
        m.stakeholders matches Some(v) && forall|k: int| 0 <= k < v.len() ==> (#[trigger] v[k]).customer.id != c.id,
    ensures
        m.with_stakeholder(c).without_stakeholder(stakeholder_of(c, None)).stakeholders == m.stakeholders,
{
    let v = m.stakeholders.unwrap();
    let s = stakeholder_of(c, None);
    if v.contains(s) {
        let k = choose|k: int| 0 <= k < v.len() && v[k] == s;
        assert(v[k].customer.id == c.id);
    }
    let w = v.push(s);
    let p = other_stakeholder(c.id);
    assert(w.drop_last() =~= v);
    assert forall|k: int| 0 <= k < v.len() implies p(#[trigger] v[k]) by {}
    lemma_keep_all(v, p);
    assert(keep(w, p) == keep(v, p));
}

/// The customers offered for adding are exactly the loaded customers whose
/// id no current stakeholder has: every such customer is offered, and every
/// offered customer is a loaded one that no stakeholder is.
pub proof fn law_addable_are_the_unrelated_customers(
    customers: Seq<CustomerView<i64>>,
    stakeholders: Seq<StakeholderView>,
    c: CustomerView<i64>,
)
    ensures
        customers.contains(c) && (forall|k: int| 0 <= k < stakeholders.len() ==> (#[trigger] stakeholders[k]).customer.id != c.id)
            ==> addable(Some(customers), Some(stakeholders)).contains(c),
        addable(Some(customers), Some(stakeholders)).contains(c) ==> customers.contains(c) && forall|k: int|
            0 <= k < stakeholders.len() ==> (#[trigger] stakeholders[k]).customer.id != c.id,
{
    let p = not_stakeholder(stakeholders);
    if customers.contains(c) && (forall|k: int| 0 <= k < stakeholders.len() ==> (#[trigger] stakeholders[k]).customer.id != c.id) {
        lemma_keep_keeps(customers, p, c);
    }
    lemma_keep_members(customers, p);
    let r = keep(customers, p);
    if r.contains(c) {
        let j = choose|j: int| 0 <= j < r.len() && r[j] == c;
        assert(p(r[j]));
        assert forall|k: int| 0 <= k < stakeholders.len() implies (#[trigger] stakeholders[k]).customer.id != c.id by {
            if stakeholders[k].customer.id == c.id {
                assert(!p(c));
            }
        }
    }
}

} // verus!
