//! The customer tabs: which customers are open, and which tab is shown.
//!
//! The state is owned here alone, so it never becomes inconsistent: the
//! shown tab is always "all users" or one of the open customers, and no
//! customer is open twice.
use vstd::prelude::*;

use crate::customers::customer_detail_view::CustomerDetailView;
use crate::customers::customers_list_view::{CustomerListView, CustomerListViewEvent};
use crate::shared::customer::{customer_views, Customer, CustomerView};
use crate::text::string_of;

verus! {

/// The content of a customer tab list.
pub ghost struct TabsView {
    /// The open customers, in the order of their tabs.
    pub tabs: Seq<CustomerView<i64>>,
    /// The id of the shown customer, or `None` when "all users" is shown.
    pub active: Option<i64>,
}

/// Some open tab holds the customer with `id`.
pub open spec fn has_id(tabs: Seq<CustomerView<i64>>, id: i64) -> bool {
    exists|k: int| 0 <= k < tabs.len() && (#[trigger] tabs[k]).id == id
}

/// No customer id is open in two tabs.
pub open spec fn distinct_ids(tabs: Seq<CustomerView<i64>>) -> bool {
    forall|i: int, j: int|
        0 <= i < tabs.len() && 0 <= j < tabs.len() && (#[trigger] tabs[i]).id == (#[trigger] tabs[j]).id
            ==> i == j
}

/// The index of the tab holding `id` (meaningful when `has_id(tabs, id)`).
pub open spec fn position(tabs: Seq<CustomerView<i64>>, id: i64) -> int {
    choose|k: int| 0 <= k < tabs.len() && (#[trigger] tabs[k]).id == id
}

impl TabsView {
    /// The tabs are consistent: ids are distinct and the shown customer is open.
    pub open spec fn wf(self) -> bool {
        &&& distinct_ids(self.tabs)
        &&& (self.active matches Some(id) ==> has_id(self.tabs, id))
    }

    /// No tab open, "all users" shown.
    pub open spec fn empty() -> TabsView {
        TabsView { tabs: Seq::empty(), active: None }
    }

    /// After opening `c`: its tab is added unless a tab with its id is
    /// already open, and it becomes the shown one.
    pub open spec fn opened(self, c: CustomerView<i64>) -> TabsView {
        TabsView {
            tabs: if has_id(self.tabs, c.id) {
                self.tabs
            } else {
                self.tabs.push(c)
            },
            active: Some(c.id),
        }
    }

    /// After closing the tab of `id`: nothing changes when it is not open;
    /// otherwise its tab goes, and when it was the shown one, the tab to its
    /// left is shown, or the first remaining tab, or "all users".
    pub open spec fn closed(self, id: i64) -> TabsView {
        if !has_id(self.tabs, id) {
            self
        } else {
            let p = position(self.tabs, id);
            let rest = self.tabs.remove(p);
            TabsView {
                tabs: rest,
                active: if self.active == Some(id) {
                    if p >= 1 {
                        Some(self.tabs[p - 1].id)
                    } else if rest.len() > 0 {
                        Some(rest[0].id)
                    } else {
                        None
                    }
                } else {
                    self.active
                },
            }
        }
    }

    /// The index of the shown tab, counting "all users" as tab 0.
    pub open spec fn selected(self) -> int {
        match self.active {
            None => 0,
            Some(id) => if has_id(self.tabs, id) {
                position(self.tabs, id) + 1
            } else {
                0
            },
        }
    }

    /// After selecting tab `index` ("all users" is 0): out-of-range indices
    /// change nothing.
    pub open spec fn selected_by_index(self, index: int) -> TabsView {
        if index == 0 {
            TabsView { active: None, ..self }
        } else if index - 1 < self.tabs.len() {
            TabsView { active: Some(self.tabs[index - 1].id), ..self }
        } else {
            self
        }
    }

    /// The shown customer, if one is shown.
    pub open spec fn active_item(self) -> Option<CustomerView<i64>> {
        match self.active {
            None => None,
            Some(id) => if has_id(self.tabs, id) {
                Some(self.tabs[position(self.tabs, id)])
            } else {
                None
            },
        }
    }
}

/// Which tab is shown.
#[derive(Clone, Copy, PartialEq, Eq)]
enum Active {
    AllUsers,
    Customer(i64),
}

/// The open customer tabs and the shown one.
pub struct TabState {
    tabs: Vec<Customer>,
    active: Active,
}

impl View for TabState {
    type V = TabsView;

    closed spec fn view(&self) -> TabsView {
        TabsView {
            tabs: customer_views(self.tabs@),
            active: match self.active {
                Active::AllUsers => None,
                Active::Customer(id) => Some(id),
            },
        }
    }
}

/// In consistent tabs, the tab found at `k` for `id` is its position.
proof fn lemma_position_unique(tabs: Seq<CustomerView<i64>>, id: i64, k: int)
    requires
        distinct_ids(tabs),
        0 <= k < tabs.len(),
        tabs[k].id == id,
    ensures
        has_id(tabs, id),
        position(tabs, id) == k,
{
    assert(has_id(tabs, id));
    let p = position(tabs, id);
    assert(tabs[p].id == tabs[k].id);
}

impl TabState {
    #[verifier::type_invariant]
    spec fn consistent(&self) -> bool {
        self@.wf()
    }

    /// No customer open; "all users" shown.
    pub fn new() -> (s: Self)
        ensures
            s@ == TabsView::empty(),
            s@.wf(),
    {
        let s = Self { tabs: Vec::new(), active: Active::AllUsers };
        proof {
            assert(customer_views(s.tabs@) =~= Seq::empty());
        }
        s
    }

    /// The open customers, in tab order.
    pub fn tabs(&self) -> (r: &[Customer])
        ensures
            customer_views(r@) == self@.tabs,
    {
        self.tabs.as_slice()
    }

    /// The index of the tab holding `id`, if one does.
    fn index_of(&self, id: i64) -> (r: Option<usize>)
        ensures
            r matches Some(p) ==> p < self.tabs.len() && p < self@.tabs.len() && has_id(self@.tabs, id) && position(self@.tabs, id) == p,
            r is None ==> !has_id(self@.tabs, id),
    {
        proof {
            use_type_invariant(self);
        }
        let n = self.tabs.len();
        let mut i: usize = 0;
        while i < n
            invariant
                n == self.tabs@.len(),
                i <= n,
                self@.tabs == customer_views(self.tabs@),
                distinct_ids(self@.tabs),
                forall|k: int| 0 <= k < i ==> (#[trigger] self@.tabs[k]).id != id,
            decreases n - i,
        {
            if self.tabs[i].id == id {
                proof {
                    lemma_position_unique(self@.tabs, id, i as int);
                }
                return Some(i);
            }
            i += 1;
        }
        None
    }

    /// The shown customer, or `None` when "all users" is shown.
    pub fn active_customer(&self) -> (r: Option<&Customer>)
        ensures
            match r {
                None => self@.active_item() is None,
                Some(c) => self@.active_item() == Some(c@),
            },
    {
        match self.active {
            Active::AllUsers => None,
            Active::Customer(id) => match self.index_of(id) {
                Some(p) => Some(&self.tabs[p]),
                None => None,
            },
        }
    }

    /// Opens a tab for `customer` unless one with its id is open, and shows it.
    pub fn open(&mut self, customer: Customer)
        ensures
            final(self)@ == old(self)@.opened(customer@),
            final(self)@.wf(),
    {
        proof {
            use_type_invariant(&*self);
        }
        let id = customer.id;
        let found = self.index_of(id);
        let ghost before = self@;
        let mut tabs: Vec<Customer> = Vec::new();
        self.active = Active::AllUsers;
        std::mem::swap(&mut tabs, &mut self.tabs);
        if found.is_none() {
            tabs.push(customer);
            proof {
                assert(customer_views(tabs@) =~= before.tabs.push(customer@));
                let t = customer_views(tabs@);
                assert forall|i: int, j: int|
                    0 <= i < t.len() && 0 <= j < t.len() && (#[trigger] t[i]).id
                        == (#[trigger] t[j]).id implies i == j by {
                    if i < before.tabs.len() && j < before.tabs.len() {
                    } else if i < before.tabs.len() {
                        assert(before.tabs[i].id == customer@.id);
                    } else if j < before.tabs.len() {
                        assert(before.tabs[j].id == customer@.id);
                    }
                }
            }
        }
        self.tabs = tabs;
        proof {
            let k = if found.is_none() { before.tabs.len() as int } else { position(before.tabs, id) };
            assert(self@.tabs[k].id == id);
        }
        self.active = Active::Customer(id);
    }

    /// Shows `target` if it is "all users" or an open customer.
    fn select(&mut self, target: Active)
        ensures
            final(self)@.tabs == old(self)@.tabs,
            final(self)@.active == match target {
                Active::AllUsers => None,
                Active::Customer(id) => if has_id(old(self)@.tabs, id) {
                    Some(id)
                } else {
                    old(self)@.active
                },
            },
    {
        proof {
            use_type_invariant(&*self);
        }
        match target {
            Active::AllUsers => self.active = Active::AllUsers,
            Active::Customer(id) => {
                let found = self.index_of(id);
                if found.is_some() {
                    proof {
                        assert(self@.tabs[position(self@.tabs, id)].id == id);
                    }
                    self.active = Active::Customer(id);
                }
            },
        }
    }

    /// Closes the tab of customer `id`, if open; when it was shown, the tab to
    /// its left is shown, or the first remaining one, or "all users".
    pub fn close(&mut self, id: i64)
        ensures
            final(self)@ == old(self)@.closed(id),
            final(self)@.wf(),
    {
        proof {
            use_type_invariant(&*self);
        }
        let pos = match self.index_of(id) {
            Some(p) => p,
            None => {
                return;
            },
        };
        let ghost before = self@;
        let was_active = match self.active {
            Active::Customer(a) => a == id,
            Active::AllUsers => false,
        };
        let next = if was_active {
            if pos >= 1 {
                Active::Customer(self.tabs[pos - 1].id)
            } else if self.tabs.len() > 1 {
                Active::Customer(self.tabs[1].id)
            } else {
                Active::AllUsers
            }
        } else {
            self.active
        };
        let mut tabs: Vec<Customer> = Vec::new();
        self.active = Active::AllUsers;
        std::mem::swap(&mut tabs, &mut self.tabs);
        tabs.remove(pos);
        proof {
            assert(customer_views(tabs@) =~= before.tabs.remove(pos as int));
            let rest = before.tabs.remove(pos as int);
            assert forall|i: int, j: int|
                0 <= i < rest.len() && 0 <= j < rest.len() && (#[trigger] rest[i]).id == (#[trigger] rest[j]).id
                    implies i == j by {
                let oi = if i < pos { i } else { i + 1 };
                let oj = if j < pos { j } else { j + 1 };
                assert(before.tabs[oi].id == before.tabs[oj].id);
            }
        }
        self.tabs = tabs;
        proof {
            let rest = before.tabs.remove(pos as int);
            match next {
                Active::Customer(a) => {
                    if was_active {
                        if pos >= 1 {
                            assert(rest[pos - 1].id == a);
                        } else {
                            assert(rest[0].id == a);
                        }
                    } else {
                        let q = position(before.tabs, a);
                        assert(before.tabs[q].id == a);
                        assert(q != pos);
                        if q < pos {
                            assert(rest[q].id == a);
                        } else {
                            assert(rest[q - 1].id == a);
                        }
                    }
                },
                Active::AllUsers => {},
            }
        }
        self.active = next;
        proof {
            assert(self@ =~= before.closed(id));
        }
    }

    /// The index of the shown tab, counting "all users" as tab 0.
    pub fn selected_index(&self) -> (r: usize)
        ensures
            r == self@.selected(),
    {
        match self.active {
            Active::AllUsers => 0,
            Active::Customer(id) => match self.index_of(id) {
                Some(p) => p + 1,
                None => 0,
            },
        }
    }

    /// Shows tab `index` ("all users" is 0); an index past the last tab
    /// changes nothing.
    pub fn select_by_index(&mut self, index: usize)
        ensures
            final(self)@ == old(self)@.selected_by_index(index as int),
            final(self)@.wf(),
    {
        proof {
            use_type_invariant(&*self);
        }
        if index == 0 {
            self.select(Active::AllUsers);
        } else if index - 1 < self.tabs.len() {
            let id = self.tabs[index - 1].id;
            proof {
                lemma_position_unique(self@.tabs, id, index - 1);
            }
            self.select(Active::Customer(id));
        }
        proof {
            use_type_invariant(&*self);
        }
    }
}

/// The labels of the tab bar: "All users", then the name of each open
/// customer in tab order.
pub open spec fn tab_labels_of(tabs: Seq<CustomerView<i64>>) -> Seq<Seq<char>> {
    seq!["All users"@] + tabs.map_values(|c: CustomerView<i64>| c.name)
}

/// The customer screen: its tabs, the customer list shown on the first tab,
/// and the detail of the customer shown on the others.
pub struct TabCustomerView {
    pub state: TabState,
    pub customer_list_view: CustomerListView,
    pub customer_detail_view: CustomerDetailView,
}

impl TabCustomerView {
    /// No customer open, an empty list, no customer in the detail.
    pub fn new() -> (s: Self)
        ensures
            s.state@ == TabsView::empty(),
            s.customer_list_view@.customers.len() == 0,
            s.customer_list_view@.filtered.len() == 0,
            s.customer_list_view@.query.len() == 0,
            s.customer_list_view@.open.len() == 0,
            s.customer_detail_view@.customer is None,
            s.customer_detail_view@.interactions is None,
            s.customer_detail_view@.form.customer is None,
    {
        Self {
            state: TabState::new(),
            customer_list_view: CustomerListView::new(),
            customer_detail_view: CustomerDetailView::new(None),
        }
    }

    /// Follows the list: a customer asked to be opened gets its tab, is shown
    /// there, and the detail shows it.
    pub fn handle_list_event(&mut self, event: CustomerListViewEvent)
        ensures
            match event {
                CustomerListViewEvent::OPEN(c) => {
                    &&& final(self).state@ == old(self).state@.opened(c@)
                    &&& final(self).customer_detail_view@ == old(self).customer_detail_view@.showing(c@)
                },
            },
            final(self).customer_list_view@ == old(self).customer_list_view@,
    {
        match event {
            CustomerListViewEvent::OPEN(customer) => {
                let shown = customer.duplicate();
                self.state.open(customer);
                self.customer_detail_view.set_customer(shown);
            },
        }
    }

    /// Closes the tab of `id` (see `TabState::close`).
    pub fn close_tab(&mut self, id: i64)
        ensures
            final(self).state@ == old(self).state@.closed(id),
            final(self).customer_list_view@ == old(self).customer_list_view@,
            final(self).customer_detail_view@ == old(self).customer_detail_view@,
    {
        self.state.close(id);
    }

    /// Shows tab `index` (see `TabState::select_by_index`).
    pub fn select_tab(&mut self, index: usize)
        ensures
            final(self).state@ == old(self).state@.selected_by_index(index as int),
            final(self).customer_list_view@ == old(self).customer_list_view@,
            final(self).customer_detail_view@ == old(self).customer_detail_view@,
    {
        self.state.select_by_index(index);
    }

    /// The labels of the tab bar.
    pub fn tab_labels(&self) -> (r: Vec<String>)
        ensures
            r@.map_values(|t: String| t@) == tab_labels_of(self.state@.tabs),
    {
        let tabs = self.state.tabs();
        let n = tabs.len();
        let ghost names = self.state@.tabs.map_values(|c: CustomerView<i64>| c.name);
        let mut r: Vec<String> = Vec::new();
        r.push(string_of("All users"));
        let mut i: usize = 0;
        while i < n
            invariant
                n == tabs@.len(),
                customer_views(tabs@) == self.state@.tabs,
                names == self.state@.tabs.map_values(|c: CustomerView<i64>| c.name),
                i <= n,
                r@.map_values(|t: String| t@) == seq!["All users"@] + names.take(i as int),
            decreases n - i,
        {
            let name = tabs[i].name.clone();
            proof {
                assert(names[i as int] == customer_views(tabs@)[i as int].name);
                assert(r@.push(name).map_values(|t: String| t@) =~= r@.map_values(|t: String| t@).push(name@));
                assert(seq!["All users"@] + names.take(i + 1) =~= (seq!["All users"@] + names.take(i as int)).push(names[i as int]));
            }
            r.push(name);
            i += 1;
        }
        proof {
            assert(names.take(n as int) =~= names);
        }
        r
    }
}

/// No tab open is a consistent state.
pub proof fn law_empty_consistent()
    ensures
        TabsView::empty().wf(),
{
}

/// Opening a customer keeps the tabs consistent.
pub proof fn law_open_keeps_consistent(m: TabsView, c: CustomerView<i64>)
    requires
        m.wf(),
    ensures
        m.opened(c).wf(),
{
    let r = m.opened(c);
    if !has_id(m.tabs, c.id) {
        assert forall|i: int, j: int|
            0 <= i < r.tabs.len() && 0 <= j < r.tabs.len() && (#[trigger] r.tabs[i]).id == (
            #[trigger] r.tabs[j]).id implies i == j by {
            if i < m.tabs.len() && j < m.tabs.len() {
            } else if i < m.tabs.len() {
                assert(m.tabs[i].id == c.id);
            } else if j < m.tabs.len() {
                assert(m.tabs[j].id == c.id);
            }
        }
        assert(r.tabs[m.tabs.len() as int].id == c.id);
    } else {
        assert(r.tabs[position(m.tabs, c.id)].id == c.id);
    }
}

/// Closing a tab keeps the tabs consistent.
pub proof fn law_close_keeps_consistent(m: TabsView, id: i64)
    requires
        m.wf(),
    ensures
        m.closed(id).wf(),
{
    if has_id(m.tabs, id) {
        let p = position(m.tabs, id);
        let rest = m.tabs.remove(p);
        assert forall|i: int, j: int|
            0 <= i < rest.len() && 0 <= j < rest.len() && (#[trigger] rest[i]).id == (
            #[trigger] rest[j]).id implies i == j by {
            let oi = if i < p { i } else { i + 1 };
            let oj = if j < p { j } else { j + 1 };
            assert(m.tabs[oi].id == m.tabs[oj].id);
        }
        let r = m.closed(id);
        if let Some(a) = r.active {
            if m.active == Some(id) {
                if p >= 1 {
                    assert(rest[p - 1].id == a);
                } else {
                    assert(rest[0].id == a);
                }
            } else {
                let q = position(m.tabs, a);
                assert(m.tabs[q].id == a);
                if q < p {
                    assert(rest[q].id == a);
                } else {
                    assert(rest[q - 1].id == a);
                }
            }
        }
    }
}

/// Selecting a tab by index keeps the tabs consistent.
pub proof fn law_select_keeps_consistent(m: TabsView, index: int)
    requires
        m.wf(),
        0 <= index,
    ensures
        m.selected_by_index(index).wf(),
{
    if index >= 1 && index - 1 < m.tabs.len() {
        let id = m.tabs[index - 1].id;
        assert(has_id(m.tabs, id));
    }
}

/// After opening a customer, a tab with its id is shown; when it was not open
/// before, the shown tab is that customer itself.
pub proof fn law_open_shows_customer(m: TabsView, c: CustomerView<i64>)
    requires
        m.wf(),
    ensures
        m.opened(c).active_item() matches Some(x) && x.id == c.id,
        !has_id(m.tabs, c.id) ==> m.opened(c).active_item() == Some(c),
{
    law_open_keeps_consistent(m, c);
    let r = m.opened(c);
    if !has_id(m.tabs, c.id) {
        let k = m.tabs.len() as int;
        assert(r.tabs[k].id == c.id);
        lemma_position_unique(r.tabs, c.id, k);
    } else {
        assert(r.tabs[position(m.tabs, c.id)].id == c.id);
    }
}

/// Opening the same customer twice is the same as opening it once.
pub proof fn law_open_idempotent(m: TabsView, c: CustomerView<i64>)
    ensures
        m.opened(c).opened(c) == m.opened(c),
{
    let r = m.opened(c);
    if !has_id(m.tabs, c.id) {
        assert(r.tabs[m.tabs.len() as int].id == c.id);
    }
    assert(has_id(r.tabs, c.id));
}

/// Closing the tab of a customer that was just opened, and was not open
/// before, gives back the tabs as they were.
pub proof fn law_close_undoes_open(m: TabsView, c: CustomerView<i64>)
    requires
        m.wf(),
        !has_id(m.tabs, c.id),
    ensures
        m.opened(c).closed(c.id).tabs == m.tabs,
{
    let r = m.opened(c);
    law_open_keeps_consistent(m, c);
    let k = m.tabs.len() as int;
    assert(r.tabs[k].id == c.id);
    lemma_position_unique(r.tabs, c.id, k);
    assert(r.tabs.remove(k) =~= m.tabs);
}

/// After closing the tab of a customer, no tab holds it.
pub proof fn law_closed_is_gone(m: TabsView, id: i64)
    requires
        m.wf(),
    ensures
        !has_id(m.closed(id).tabs, id),
{
    if has_id(m.tabs, id) {
        let p = position(m.tabs, id);
        let rest = m.tabs.remove(p);
        if has_id(rest, id) {
            let q = choose|q: int| 0 <= q < rest.len() && (#[trigger] rest[q]).id == id;
            let oq = if q < p { q } else { q + 1 };
            assert(m.tabs[oq].id == m.tabs[p].id);
        }
    }
}

/// The shown tab index lies between 0 ("all users") and the number of tabs.
pub proof fn law_selected_in_range(m: TabsView)
    requires
        m.wf(),
    ensures
        0 <= m.selected() <= m.tabs.len(),
{
    if let Some(id) = m.active {
        assert(m.tabs[position(m.tabs, id)].id == id);
    }
}

/// Selecting the index of the shown tab changes nothing.
pub proof fn law_select_selected_unchanged(m: TabsView)
    requires
        m.wf(),
    ensures
        m.selected_by_index(m.selected()) == m,
{
    if let Some(id) = m.active {
        assert(m.tabs[position(m.tabs, id)].id == id);
    }
}

/// Selecting an index in range makes it the shown tab index.
pub proof fn law_select_then_selected(m: TabsView, index: int)
    requires
        m.wf(),
        0 <= index <= m.tabs.len(),
    ensures
        m.selected_by_index(index).selected() == index,
{
    if index >= 1 {
        let r = m.selected_by_index(index);
        lemma_position_unique(r.tabs, m.tabs[index - 1].id, index - 1);
    }
}

/// Closing the tab of an item that is not the shown one leaves the shown
/// tab as it was; closing the shown one shows another open tab, or "all".
pub proof fn law_close_keeps_shown_tab(m: TabsView, id: i64)
    requires
        m.wf(),
    ensures
        m.active != Some(id) ==> m.closed(id).active == m.active,
        m.closed(id).active matches Some(a) ==> has_id(m.closed(id).tabs, a),
{
    law_close_keeps_consistent(m, id);
}

} // verus!
