//! The list of customers: the search over it, the order it is shown in, and
//! the customers opened from it.
use vstd::prelude::*;

use crate::seqs::{keep, lemma_keep_keeps, lemma_keep_members, lemma_keep_split_len, lemma_keep_step};
use crate::shared::customer::{copy_customers, customer_views, Customer, CustomerView};
use crate::shared::events::AppEvent;
use crate::text::{occurs, occurs_in, text_or, text_or_else, trim_chars, trimmed};

verus! {

/// What the customer list tells its listeners.
pub enum CustomerListViewEvent {
    /// The customer was asked to be opened.
    OPEN(Customer),
}

/// The yes/no fields of a customer that the list can change.
#[derive(Debug, Clone, Copy, PartialEq, Eq)]
pub enum PatchField {
    CONTACTED,
    CLIENT,
}

/// A text field matches a (trimmed) query when the query occurs in the
/// field's trimmed text.
pub open spec fn text_matches(field: Seq<char>, q: Seq<char>) -> bool {
    occurs_in(q, trimmed(field))
}

/// An absent optional field never matches.
pub open spec fn optional_text_matches(field: Option<Seq<char>>, q: Seq<char>) -> bool {
    match field {
        Some(f) => text_matches(f, q),
        None => false,
    }
}

/// A customer matches a (trimmed) query on its name, email, site,
/// Instagram address or postal address.
pub open spec fn customer_matches(c: CustomerView<i64>, q: Seq<char>) -> bool {
    ||| text_matches(c.name, q)
    ||| text_matches(c.email, q)
    ||| optional_text_matches(c.site_url, q)
    ||| optional_text_matches(c.instagram_url, q)
    ||| optional_text_matches(c.address, q)
}

/// The customers a search for `query` finds, in list order; a blank query
/// finds none.
pub open spec fn search_results(customers: Seq<CustomerView<i64>>, query: Seq<char>) -> Seq<CustomerView<i64>> {
    let q = trimmed(query);
    if q.len() > 0 {
        keep(customers, |c: CustomerView<i64>| customer_matches(c, q))
    } else {
        Seq::empty()
    }
}

/// The order customers are shown in: those found by the search first, then
/// the rest, each group in list order, each marked with whether it was found.
pub open spec fn listing(customers: Seq<CustomerView<i64>>, found: Seq<CustomerView<i64>>) -> Seq<(CustomerView<i64>, bool)> {
    keep(customers, |c: CustomerView<i64>| found.contains(c)).map_values(|c: CustomerView<i64>| (c, true))
        + keep(customers, |c: CustomerView<i64>| !found.contains(c)).map_values(
        |c: CustomerView<i64>| (c, false),
    )
}

/// How the customer list shows a customer: its name and email, its
/// Instagram address, site and postal address ("N/A" when missing), the
/// client and contacted switches, and whether the search found it.
pub struct CustomerListItem {
    pub name: String,
    pub email: String,
    pub instagram: String,
    pub site: String,
    pub address: String,
    pub is_client: bool,
    pub contacted: bool,
    pub selected: bool,
}

/// Whether `item` shows customer `c`, found by the search or not.
pub open spec fn shows_customer(item: CustomerListItem, c: CustomerView<i64>, selected: bool) -> bool {
    &&& item.name@ == c.name
    &&& item.email@ == c.email
    &&& item.instagram@ == text_or(c.instagram_url, "N/A"@)
    &&& item.site@ == text_or(c.site_url, "N/A"@)
    &&& item.address@ == text_or(c.address, "N/A"@)
    &&& item.is_client == c.is_client
    &&& item.contacted == c.contacted
    &&& item.selected == selected
}

/// The list item of `customer`, highlighted when the search found it.
pub fn customer_item(customer: &Customer, is_selected: bool) -> (r: CustomerListItem)
    ensures
        shows_customer(r, customer@, is_selected),
{
    CustomerListItem {
        name: customer.name.clone(),
        email: customer.email.clone(),
        instagram: text_or_else(&customer.instagram_url, "N/A"),
        site: text_or_else(&customer.site_url, "N/A"),
        address: text_or_else(&customer.address, "N/A"),
        is_client: customer.is_client,
        contacted: customer.contacted,
        selected: is_selected,
    }
}

/// The content of the customer list.
pub ghost struct CustomerListModel {
    pub customers: Seq<CustomerView<i64>>,
    pub filtered: Seq<CustomerView<i64>>,
    pub query: Seq<char>,
    pub open: Seq<CustomerView<i64>>,
}

impl CustomerListModel {
    /// After toggling `c`: when it is among the opened customers, the opened
    /// ones become every listed customer with another id; otherwise `c` is
    /// added to the opened ones.
    pub open spec fn toggled(self, c: CustomerView<i64>) -> CustomerListModel {
        if self.open.contains(c) {
            CustomerListModel { open: keep(self.customers, |f: CustomerView<i64>| f.id != c.id), ..self }
        } else {
            CustomerListModel { open: self.open.push(c), ..self }
        }
    }
}

/// The customers, the search over them and the customers opened from them.
pub struct CustomerListView {
    customers: Vec<Customer>,
    filtered_customers: Vec<Customer>,
    query: String,
    pub open_customers: Vec<Customer>,
}

impl View for CustomerListView {
    type V = CustomerListModel;

    closed spec fn view(&self) -> CustomerListModel {
        CustomerListModel {
            customers: customer_views(self.customers@),
            filtered: customer_views(self.filtered_customers@),
            query: self.query@,
            open: customer_views(self.open_customers@),
        }
    }
}

/// Whether a customer with the content of `c` is in `list`.
pub fn list_contains(list: &Vec<Customer>, c: &Customer) -> (r: bool)
    ensures
        r == customer_views(list@).contains(c@),
{
    let n = list.len();
    let mut i: usize = 0;
    while i < n
        invariant
            n == list@.len(),
            i <= n,
            forall|k: int| 0 <= k < i ==> customer_views(list@)[k] != c@,
        decreases n - i,
    {
        if list[i].same_as(c) {
            proof {
                assert(customer_views(list@)[i as int] == c@);
            }
            return true;
        }
        i += 1;
    }
    false
}

/// Whether the trimmed text of `field` holds the query `q`.
fn text_holds(field: &String, q: &Vec<char>) -> (r: bool)
    ensures
        r == text_matches(field@, q@),
{
    let t = trim_chars(field.as_str());
    occurs(q, &t)
}

/// Whether an optional field is present and its trimmed text holds `q`.
fn optional_text_holds(field: &Option<String>, q: &Vec<char>) -> (r: bool)
    ensures
        r == optional_text_matches(field.deep_view(), q@),
{
    match field {
        Some(f) => text_holds(f, q),
        None => false,
    }
}

/// Whether customer `c` matches the trimmed query `q`.
pub fn matches_query(c: &Customer, q: &Vec<char>) -> (r: bool)
    ensures
        r == customer_matches(c@, q@),
{
    text_holds(&c.name, q) || text_holds(&c.email, q) || optional_text_holds(&c.site_url, q)
        || optional_text_holds(&c.instagram_url, q) || optional_text_holds(&c.address, q)
}

impl CustomerListView {
    /// An empty list with an empty search.
    pub fn new() -> (s: Self)
        ensures
            s@.customers == Seq::<CustomerView<i64>>::empty(),
            s@.filtered == Seq::<CustomerView<i64>>::empty(),
            s@.query == Seq::<char>::empty(),
            s@.open == Seq::<CustomerView<i64>>::empty(),
    {
        let s = Self {
            customers: Vec::new(),
            filtered_customers: Vec::new(),
            query: String::new(),
            open_customers: Vec::new(),
        };
        proof {
            assert(customer_views(s.customers@) =~= Seq::empty());
            assert(customer_views(s.filtered_customers@) =~= Seq::empty());
            assert(customer_views(s.open_customers@) =~= Seq::empty());
        }
        s
    }

    /// The listed customers.
    pub fn customers(&self) -> (r: &[Customer])
        ensures
            customer_views(r@) == self@.customers,
    {
        self.customers.as_slice()
    }

    /// The customers the last search found.
    pub fn filtered_customers(&self) -> (r: &[Customer])
        ensures
            customer_views(r@) == self@.filtered,
    {
        self.filtered_customers.as_slice()
    }

    /// The text of the last search.
    pub fn query(&self) -> (r: &str)
        ensures
            r@ == self@.query,
    {
        self.query.as_str()
    }

    /// Replaces the listed customers with those loaded from the store; the
    /// search results are left as they were. Gives the event announcing the
    /// loaded customers.
    pub fn set_customers(&mut self, customers: Vec<Customer>) -> (e: AppEvent)
        ensures
            final(self)@ == (CustomerListModel { customers: customer_views(customers@), ..old(self)@ }),
            e matches AppEvent::LoadedCustomers(v) && customer_views(v@) == customer_views(customers@),
    {
        let loaded = copy_customers(&customers);
        self.customers = customers;
        AppEvent::LoadedCustomers(loaded)
    }

    /// Searches the listed customers for `text`: the search text becomes
    /// `text` and the results those customers that match its trimmed form,
    /// none when it is blank.
    pub fn set_query(&mut self, text: &str)
        ensures
            final(self)@ == (CustomerListModel {
                query: text@,
                filtered: search_results(old(self)@.customers, text@),
                ..old(self)@
            }),
    {
        self.query = String::from_str(text);
        let q = trim_chars(text);
        let mut found: Vec<Customer> = Vec::new();
        if q.len() > 0 {
            let n = self.customers.len();
            let ghost all = customer_views(self.customers@);
            let ghost pred = |c: CustomerView<i64>| customer_matches(c, q@);
            let mut i: usize = 0;
            while i < n
                invariant
                    n == self.customers@.len(),
                    all == customer_views(self.customers@),
                    pred == (|c: CustomerView<i64>| customer_matches(c, q@)),
                    i <= n,
                    customer_views(found@) == keep(all.take(i as int), pred),
                decreases n - i,
            {
                proof {
                    lemma_keep_step(all, pred, i as int);
                }
                if matches_query(&self.customers[i], &q) {
                    let c = self.customers[i].duplicate();
                    proof {
                        assert(customer_views(found@.push(c)) =~= customer_views(found@).push(c@));
                    }
                    found.push(c);
                }
                i += 1;
            }
            proof {
                assert(all.take(n as int) =~= all);
            }
        } else {
            proof {
                assert(customer_views(found@) =~= Seq::empty());
            }
        }
        self.filtered_customers = found;
    }

    /// The customers in the order they are shown, each with whether the
    /// search found it: found ones first, then the others, each in list order.
    pub fn listing(&self) -> (r: Vec<(Customer, bool)>)
        ensures
            r@.map_values(|x: (Customer, bool)| (x.0@, x.1)) == listing(self@.customers, self@.filtered),
    {
        let n = self.customers.len();
        let ghost all = customer_views(self.customers@);
        let ghost found = customer_views(self.filtered_customers@);
        let ghost inp = |c: CustomerView<i64>| found.contains(c);
        let ghost outp = |c: CustomerView<i64>| !found.contains(c);
        let mut first: Vec<(Customer, bool)> = Vec::new();
        let mut i: usize = 0;
        while i < n
            invariant
                n == self.customers@.len(),
                all == customer_views(self.customers@),
                found == customer_views(self.filtered_customers@),
                inp == (|c: CustomerView<i64>| found.contains(c)),
                i <= n,
                first@.map_values(|x: (Customer, bool)| (x.0@, x.1)) == keep(all.take(i as int), inp).map_values(
                    |c: CustomerView<i64>| (c, true),
                ),
            decreases n - i,
        {
            proof {
                lemma_keep_step(all, inp, i as int);
            }
            if list_contains(&self.filtered_customers, &self.customers[i]) {
                let c = self.customers[i].duplicate();
                proof {
                    assert(first@.push((c, true)).map_values(|x: (Customer, bool)| (x.0@, x.1))
                        =~= first@.map_values(|x: (Customer, bool)| (x.0@, x.1)).push((c@, true)));
                    assert(keep(all.take(i as int), inp).push(all[i as int]).map_values(|c: CustomerView<i64>| (c, true))
                        =~= keep(all.take(i as int), inp).map_values(|c: CustomerView<i64>| (c, true)).push((all[i as int], true)));
                }
                first.push((c, true));
            }
            i += 1;
        }
        let mut rest: Vec<(Customer, bool)> = Vec::new();
        let mut j: usize = 0;
        while j < n
            invariant
                n == self.customers@.len(),
                all == customer_views(self.customers@),
                found == customer_views(self.filtered_customers@),
                outp == (|c: CustomerView<i64>| !found.contains(c)),
                j <= n,
                rest@.map_values(|x: (Customer, bool)| (x.0@, x.1)) == keep(all.take(j as int), outp).map_values(
                    |c: CustomerView<i64>| (c, false),
                ),
            decreases n - j,
        {
            proof {
                lemma_keep_step(all, outp, j as int);
            }
            if !list_contains(&self.filtered_customers, &self.customers[j]) {
                let c = self.customers[j].duplicate();
                proof {
                    assert(rest@.push((c, false)).map_values(|x: (Customer, bool)| (x.0@, x.1))
                        =~= rest@.map_values(|x: (Customer, bool)| (x.0@, x.1)).push((c@, false)));
                    assert(keep(all.take(j as int), outp).push(all[j as int]).map_values(|c: CustomerView<i64>| (c, false))
                        =~= keep(all.take(j as int), outp).map_values(|c: CustomerView<i64>| (c, false)).push((all[j as int], false)));
                }
                rest.push((c, false));
            }
            j += 1;
        }
        proof {
            assert(all.take(n as int) =~= all);
        }
        let ghost a = first@;
        let ghost b = rest@;
        first.append(&mut rest);
        proof {
            assert((a + b).map_values(|x: (Customer, bool)| (x.0@, x.1)) =~= a.map_values(
                |x: (Customer, bool)| (x.0@, x.1),
            ) + b.map_values(|x: (Customer, bool)| (x.0@, x.1)));
        }
        first
    }

    /// The items of the list in the order they are shown (see `listing`).
    pub fn items(&self) -> (r: Vec<CustomerListItem>)
        ensures
            r@.len() == listing(self@.customers, self@.filtered).len(),
            forall|k: int|
                0 <= k < r@.len() ==> shows_customer(
                    #[trigger] r@[k],
                    listing(self@.customers, self@.filtered)[k].0,
                    listing(self@.customers, self@.filtered)[k].1,
                ),
    {
        let entries = self.listing();
        let ghost l = listing(self@.customers, self@.filtered);
        let n = entries.len();
        let mut r: Vec<CustomerListItem> = Vec::new();
        let mut i: usize = 0;
        while i < n
            invariant
                n == entries@.len(),
                entries@.map_values(|x: (Customer, bool)| (x.0@, x.1)) == l,
                i <= n,
                r@.len() == i,
                forall|k: int| 0 <= k < i ==> shows_customer(#[trigger] r@[k], l[k].0, l[k].1),
            decreases n - i,
        {
            let item = customer_item(&entries[i].0, entries[i].1);
            proof {
                assert(l[i as int] == (entries@[i as int].0@, entries@[i as int].1));
            }
            r.push(item);
            i += 1;
        }
        r
    }

    /// Asks to open `customer`: the opened customers change as by
    /// `toggle_customer`, and the event asking to open it is given.
    pub fn view_customer(&mut self, customer: Customer) -> (e: CustomerListViewEvent)
        ensures
            final(self)@ == old(self)@.toggled(customer@),
            e matches CustomerListViewEvent::OPEN(c) && c@ == customer@,
    {
        let shown = customer.duplicate();
        self.toggle_customer(customer);
        CustomerListViewEvent::OPEN(shown)
    }

    /// Opens `customer`, or, when a customer with its content is already
    /// open, makes the opened customers every listed customer with another id.
    pub fn toggle_customer(&mut self, customer: Customer)
        ensures
            final(self)@ == old(self)@.toggled(customer@),
    {
        if list_contains(&self.open_customers, &customer) {
            let n = self.customers.len();
            let ghost all = customer_views(self.customers@);
            let ghost pred = |f: CustomerView<i64>| f.id != customer@.id;
            let mut kept: Vec<Customer> = Vec::new();
            let mut i: usize = 0;
            while i < n
                invariant
                    n == self.customers@.len(),
                    all == customer_views(self.customers@),
                    pred == (|f: CustomerView<i64>| f.id != customer@.id),
                    i <= n,
                    customer_views(kept@) == keep(all.take(i as int), pred),
                decreases n - i,
            {
                proof {
                    lemma_keep_step(all, pred, i as int);
                }
                if self.customers[i].id != customer.id {
                    let c = self.customers[i].duplicate();
                    proof {
                        assert(customer_views(kept@.push(c)) =~= customer_views(kept@).push(c@));
                    }
                    kept.push(c);
                }
                i += 1;
            }
            proof {
                assert(all.take(n as int) =~= all);
            }
            self.open_customers = kept;
            return;
        }
        proof {
            assert(customer_views(self.open_customers@.push(customer)) =~= customer_views(
                self.open_customers@,
            ).push(customer@));
        }
        self.open_customers.push(customer);
    }
}

/// Every customer a search finds is a listed customer that matches the
/// trimmed search text.
pub proof fn law_search_results_match(customers: Seq<CustomerView<i64>>, query: Seq<char>)
    ensures
        forall|k: int|
            0 <= k < search_results(customers, query).len() ==> customer_matches(
                #[trigger] search_results(customers, query)[k],
                trimmed(query),
            ) && customers.contains(search_results(customers, query)[k]),
{
    let q = trimmed(query);
    if q.len() > 0 {
        lemma_keep_members(customers, |c: CustomerView<i64>| customer_matches(c, q));
    }
}

/// A blank search finds nothing.
pub proof fn law_blank_search_finds_nothing(customers: Seq<CustomerView<i64>>, query: Seq<char>)
    requires
        trimmed(query).len() == 0,
    ensures
        search_results(customers, query).len() == 0,
{
}

/// The shown order holds as many entries as there are listed customers: the
/// found ones and the others together.
pub proof fn law_listing_keeps_every_customer(customers: Seq<CustomerView<i64>>, found: Seq<CustomerView<i64>>)
    ensures
        listing(customers, found).len() == customers.len(),
{
    lemma_keep_split_len(
        customers,
        |c: CustomerView<i64>| found.contains(c),
        |c: CustomerView<i64>| !found.contains(c),
    );
}

/// A search for a non-blank text finds every listed customer whose trimmed
/// name, email, site, Instagram address or postal address contains the
/// trimmed text.
pub proof fn law_search_finds_every_matching_customer(
    customers: Seq<CustomerView<i64>>,
    query: Seq<char>,
    c: CustomerView<i64>,
)
    requires
        customers.contains(c),
        trimmed(query).len() > 0,
        occurs_in(trimmed(query), trimmed(c.name)) || occurs_in(trimmed(query), trimmed(c.email)) || (
        c.site_url matches Some(u) && occurs_in(trimmed(query), trimmed(u))) || (c.instagram_url matches Some(
            u,
        ) && occurs_in(trimmed(query), trimmed(u))) || (c.address matches Some(u) && occurs_in(
            trimmed(query),
            trimmed(u),
        )),
    ensures
        search_results(customers, query).contains(c),
{
    let q = trimmed(query);
    lemma_keep_keeps(customers, |x: CustomerView<i64>| customer_matches(x, q), c);
}

} // verus!
