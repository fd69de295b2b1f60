//! The fields of the project creation form and how they are described.
use vstd::prelude::*;

use crate::shared::app_form::{FormFieldItem, FormFieldSelectItem};
use crate::text::concat3;

verus! {

/// The fields a project form can hold.
#[derive(Debug, Clone, Copy, PartialEq, Eq, Structural, Hash)]
pub enum CreateProjectViewField {
    Name,
    CurrentVersion,
    CreatedAt,
    Status,
    Description,
    StartDate,
    SiteUrl,
    Codename,
    TargetDeadline,
    UpdatedAt,
    Budget,
}

/// The free-text fields, in the order they are shown.
pub fn text_fields() -> (r: Vec<FormFieldItem<CreateProjectViewField>>)
    ensures
        r@.len() == 6,
        r@[0].id == CreateProjectViewField::Name && r@[0].label@ == "Name"@,
        r@[1].id == CreateProjectViewField::Description && r@[1].label@ == "Description"@,
        r@[2].id == CreateProjectViewField::SiteUrl && r@[2].label@ == "Site url"@,
        r@[3].id == CreateProjectViewField::Codename && r@[3].label@ == "Project Codename"@,
        r@[4].id == CreateProjectViewField::CurrentVersion && r@[4].label@ == "Version"@,
        r@[5].id == CreateProjectViewField::Budget && r@[5].label@ == "Budget"@,
{
    let mut r: Vec<FormFieldItem<CreateProjectViewField>> = Vec::new();
    r.push(FormFieldItem { id: CreateProjectViewField::Name, label: "Name" });
    r.push(FormFieldItem { id: CreateProjectViewField::Description, label: "Description" });
    r.push(FormFieldItem { id: CreateProjectViewField::SiteUrl, label: "Site url" });
    r.push(FormFieldItem { id: CreateProjectViewField::Codename, label: "Project Codename" });
    r.push(FormFieldItem { id: CreateProjectViewField::CurrentVersion, label: "Version" });
    r.push(FormFieldItem { id: CreateProjectViewField::Budget, label: "Budget" });
    r
}

/// The choice fields: the status, offering "Started" and "Prospecting".
pub fn select_fields() -> (r: Vec<FormFieldSelectItem<CreateProjectViewField>>)
    ensures
        r@.len() == 1,
        r@[0].id == CreateProjectViewField::Status,
        r@[0].label@ == "Status"@,
        r@[0].options@.len() == 2,
        r@[0].options@[0]@ == "Started"@,
        r@[0].options@[1]@ == "Prospecting"@,
{
    let options: &'static [&'static str] = &["Started", "Prospecting"];
    let mut r: Vec<FormFieldSelectItem<CreateProjectViewField>> = Vec::new();
    r.push(FormFieldSelectItem { id: CreateProjectViewField::Status, label: "Status", options });
    r
}

/// The date fields, in the order they are shown.
pub fn date_fields() -> (r: Vec<FormFieldItem<CreateProjectViewField>>)
    ensures
        r@.len() == 3,
        r@[0].id == CreateProjectViewField::CreatedAt && r@[0].label@ == "Created at"@,
        r@[1].id == CreateProjectViewField::StartDate && r@[1].label@ == "Started at"@,
        r@[2].id == CreateProjectViewField::TargetDeadline && r@[2].label@ == "Project due"@,
{
    let mut r: Vec<FormFieldItem<CreateProjectViewField>> = Vec::new();
    r.push(FormFieldItem { id: CreateProjectViewField::CreatedAt, label: "Created at" });
    r.push(FormFieldItem { id: CreateProjectViewField::StartDate, label: "Started at" });
    r.push(FormFieldItem { id: CreateProjectViewField::TargetDeadline, label: "Project due" });
    r
}

/// The text of each field, as entered (one entry per field of the form).
pub open spec fn field_texts(v: Seq<(CreateProjectViewField, String)>) -> Seq<(CreateProjectViewField, Seq<char>)> {
    v.map_values(|e: (CreateProjectViewField, String)| (e.0, e.1@))
}

/// The entries after the text `t` is entered in field `id`.
pub open spec fn entered(
    s: Seq<(CreateProjectViewField, Seq<char>)>,
    id: CreateProjectViewField,
    t: Seq<char>,
) -> Seq<(CreateProjectViewField, Seq<char>)> {
    s.map_values(
        |e: (CreateProjectViewField, Seq<char>)|
            if e.0 == id {
                (id, t)
            } else {
                e
            },
    )
}

/// The text of field `id` is `t`: its first entry holds `t`.
pub open spec fn holds_text(s: Seq<(CreateProjectViewField, Seq<char>)>, id: CreateProjectViewField, t: Seq<char>) -> bool {
    exists|k: int|
        0 <= k < s.len() && (#[trigger] s[k]) == (id, t) && forall|j: int| 0 <= j < k ==> (#[trigger] s[j]).0 != id
}

/// The entries of a form with every field empty.
pub open spec fn blank_entries(ids: Seq<CreateProjectViewField>) -> Seq<(CreateProjectViewField, Seq<char>)> {
    ids.map_values(|id: CreateProjectViewField| (id, Seq::<char>::empty()))
}

/// The free-text fields, in the order they are shown.
pub open spec fn text_field_ids() -> Seq<CreateProjectViewField> {
    seq![
        CreateProjectViewField::Name,
        CreateProjectViewField::Description,
        CreateProjectViewField::SiteUrl,
        CreateProjectViewField::Codename,
        CreateProjectViewField::CurrentVersion,
        CreateProjectViewField::Budget,
    ]
}

/// The content of the project form: the text of each free-text field and
/// the value chosen in each choice field.
pub ghost struct ProjectFormModel {
    pub text: Seq<(CreateProjectViewField, Seq<char>)>,
    pub select: Seq<(CreateProjectViewField, Seq<char>)>,
}

/// A project form whose fields are described by `text_fields` and
/// `select_fields`: what is entered in each.
pub struct CreateProjectView {
    text_fields: Vec<(CreateProjectViewField, String)>,
    select_fields: Vec<(CreateProjectViewField, String)>,
}

impl View for CreateProjectView {
    type V = ProjectFormModel;

    closed spec fn view(&self) -> ProjectFormModel {
        ProjectFormModel { text: field_texts(self.text_fields@), select: field_texts(self.select_fields@) }
    }
}

/// The entries after `t` is entered in field `id`.
fn enter(v: Vec<(CreateProjectViewField, String)>, id: CreateProjectViewField, t: &str) -> (r: Vec<(CreateProjectViewField, String)>)
    ensures
        field_texts(r@) == entered(field_texts(v@), id, t@),
{
    let n = v.len();
    let ghost start = field_texts(v@);
    let mut r: Vec<(CreateProjectViewField, String)> = Vec::new();
    let mut i: usize = 0;
    while i < n
        invariant
            n == v@.len(),
            start == field_texts(v@),
            i <= n,
            field_texts(r@) == entered(start, id, t@).take(i as int),
        decreases n - i,
    {
        let e = if v[i].0 == id {
            (id, String::from_str(t))
        } else {
            (v[i].0, v[i].1.clone())
        };
        proof {
            assert(start[i as int] == (v@[i as int].0, v@[i as int].1@));
            assert((e.0, e.1@) == entered(start, id, t@)[i as int]);
            assert(field_texts(r@.push(e)) =~= field_texts(r@).push((e.0, e.1@)));
            assert(entered(start, id, t@).take(i + 1) =~= entered(start, id, t@).take(i as int).push(
                entered(start, id, t@)[i as int],
            ));
        }
        r.push(e);
        i += 1;
    }
    proof {
        assert(entered(start, id, t@).take(n as int) =~= entered(start, id, t@));
    }
    r
}

/// The text of the first entry of field `id`, if there is one.
fn lookup(v: &Vec<(CreateProjectViewField, String)>, id: CreateProjectViewField) -> (r: Option<&str>)
    ensures
        match r {
            Some(t) => holds_text(field_texts(v@), id, t@),
            None => forall|k: int| 0 <= k < v@.len() ==> (#[trigger] field_texts(v@)[k]).0 != id,
        },
{
    let n = v.len();
    let mut i: usize = 0;
    while i < n
        invariant
            n == v@.len(),
            i <= n,
            forall|k: int| 0 <= k < i ==> (#[trigger] field_texts(v@)[k]).0 != id,
        decreases n - i,
    {
        if v[i].0 == id {
            let t = v[i].1.as_str();
            proof {
                assert(field_texts(v@)[i as int] == (id, t@));
            }
            return Some(t);
        }
        i += 1;
    }
    None
}

/// A field has at most one text: that of its first entry.
proof fn lemma_holds_text_unique(
    s: Seq<(CreateProjectViewField, Seq<char>)>,
    id: CreateProjectViewField,
    a: Seq<char>,
    b: Seq<char>,
)
    requires
        holds_text(s, id, a),
        holds_text(s, id, b),
    ensures
        a == b,
{
    let ka = choose|k: int|
        0 <= k < s.len() && (#[trigger] s[k]) == (id, a) && forall|j: int| 0 <= j < k ==> (#[trigger] s[j]).0 != id;
    let kb = choose|k: int|
        0 <= k < s.len() && (#[trigger] s[k]) == (id, b) && forall|j: int| 0 <= j < k ==> (#[trigger] s[j]).0 != id;
    if ka < kb {
        assert(s[ka].0 == id);
    } else if kb < ka {
        assert(s[kb].0 == id);
    }
}

impl CreateProjectView {
    /// A form with every field empty.
    pub fn new() -> (s: Self)
        ensures
            s@.text == blank_entries(text_field_ids()),
            s@.select == blank_entries(seq![CreateProjectViewField::Status]),
    {
        let descriptors = text_fields();
        let n = descriptors.len();
        let mut text: Vec<(CreateProjectViewField, String)> = Vec::new();
        let mut i: usize = 0;
        while i < n
            invariant
                n == descriptors@.len(),
                n == 6,
                forall|k: int| 0 <= k < 6 ==> (#[trigger] descriptors@[k]).id == text_field_ids()[k],
                i <= n,
                field_texts(text@) == blank_entries(text_field_ids()).take(i as int),
            decreases n - i,
        {
            let e = (descriptors[i].id, String::new());
            proof {
                assert(field_texts(text@.push(e)) =~= field_texts(text@).push((e.0, e.1@)));
                assert(blank_entries(text_field_ids()).take(i + 1) =~= blank_entries(text_field_ids()).take(
                    i as int,
                ).push((text_field_ids()[i as int], Seq::<char>::empty())));
            }
            text.push(e);
            i += 1;
        }
        proof {
            assert(blank_entries(text_field_ids()).take(6) =~= blank_entries(text_field_ids()));
        }
        let choices = select_fields();
        let mut select: Vec<(CreateProjectViewField, String)> = Vec::new();
        select.push((choices[0].id, String::new()));
        proof {
            assert(field_texts(select@) =~= blank_entries(seq![CreateProjectViewField::Status]));
        }
        Self { text_fields: text, select_fields: select }
    }

    /// Records the text now entered in a free-text field.
    pub fn set_text(&mut self, id: CreateProjectViewField, t: &str)
        ensures
            final(self)@ == (ProjectFormModel { text: entered(old(self)@.text, id, t@), ..old(self)@ }),
    {
        let mut fields: Vec<(CreateProjectViewField, String)> = Vec::new();
        std::mem::swap(&mut fields, &mut self.text_fields);
        self.text_fields = enter(fields, id, t);
    }

    /// Records the value now chosen in a choice field.
    pub fn set_select(&mut self, id: CreateProjectViewField, t: &str)
        ensures
            final(self)@ == (ProjectFormModel { select: entered(old(self)@.select, id, t@), ..old(self)@ }),
    {
        let mut fields: Vec<(CreateProjectViewField, String)> = Vec::new();
        std::mem::swap(&mut fields, &mut self.select_fields);
        self.select_fields = enter(fields, id, t);
    }

    /// The text entered in a free-text field, if the form has it.
    pub fn text(&self, id: CreateProjectViewField) -> (r: Option<&str>)
        ensures
            match r {
                Some(t) => holds_text(self@.text, id, t@),
                None => forall|k: int| 0 <= k < self@.text.len() ==> (#[trigger] self@.text[k]).0 != id,
            },
    {
        lookup(&self.text_fields, id)
    }

    /// The heading of the form, naming the project being entered (nothing
    /// between the brackets when no name field is held).
    pub fn title(&self) -> (r: String)
        ensures
            match self.name_text() {
                Some(n) => r@ == "Create a new project  ["@ + n + "]"@,
                None => r@ == "Create a new project  []"@,
            },
    {
        match lookup(&self.text_fields, CreateProjectViewField::Name) {
            Some(name) => {
                proof {
                    assert forall|t: Seq<char>| holds_text(self@.text, CreateProjectViewField::Name, t) implies t
                        == name@ by {
                        lemma_holds_text_unique(self@.text, CreateProjectViewField::Name, t, name@);
                    }
                    assert(holds_text(self@.text, CreateProjectViewField::Name, name@));
                    assert(self.name_text() == Some(name@));
                }
                concat3("Create a new project  [", name, "]")
            },
            None => {
                proof {
                    assert forall|t: Seq<char>| !holds_text(self@.text, CreateProjectViewField::Name, t) by {
                        if holds_text(self@.text, CreateProjectViewField::Name, t) {
                            let k = choose|k: int|
                                0 <= k < self@.text.len() && (#[trigger] self@.text[k]) == (
                                    CreateProjectViewField::Name,
                                    t,
                                ) && forall|j: int| 0 <= j < k ==> (#[trigger] self@.text[j]).0 != CreateProjectViewField::Name;
                            assert(self@.text[k].0 == CreateProjectViewField::Name);
                        }
                    }
                    assert(self.name_text() is None);
                    reveal_strlit("Create a new project  []");
                    reveal_strlit("Create a new project  [");
                    reveal_strlit("]");
                }
                let r = concat3("Create a new project  [", "", "]");
                proof {
                    reveal_strlit("");
                    assert(r@ =~= "Create a new project  []"@);
                }
                r
            },
        }
    }

    /// The text of the first entry of the name field, if there is one.
    pub closed spec fn name_text(&self) -> Option<Seq<char>> {
        if exists|t: Seq<char>| holds_text(self@.text, CreateProjectViewField::Name, t) {
            Some(choose|t: Seq<char>| holds_text(self@.text, CreateProjectViewField::Name, t))
        } else {
            None
        }
    }
}

/// Below any entry of field `id` lies a first one.
proof fn lemma_first_entry(s: Seq<(CreateProjectViewField, Seq<char>)>, id: CreateProjectViewField, k: int) -> (f: int)
    requires
        0 <= k < s.len(),
        s[k].0 == id,
    ensures
        0 <= f <= k,
        s[f].0 == id,
        forall|m: int| 0 <= m < f ==> (#[trigger] s[m]).0 != id,
    decreases k,
{
    if exists|m: int| 0 <= m < k && (#[trigger] s[m]).0 == id {
        let m = choose|m: int| 0 <= m < k && (#[trigger] s[m]).0 == id;
        lemma_first_entry(s, id, m)
    } else {
        k
    }
}

/// Entering a text in a field the form holds makes that the field's text,
/// and leaves every entry of another field as it was.
pub proof fn law_entered_text_is_read_back(
    s: Seq<(CreateProjectViewField, Seq<char>)>,
    id: CreateProjectViewField,
    t: Seq<char>,
)
    requires
        exists|k: int| 0 <= k < s.len() && (#[trigger] s[k]).0 == id,
    ensures
        holds_text(entered(s, id, t), id, t),
        forall|k: int| 0 <= k < s.len() && s[k].0 != id ==> (#[trigger] entered(s, id, t)[k]) == s[k],
{
    let r = entered(s, id, t);
    let k0 = choose|k: int| 0 <= k < s.len() && (#[trigger] s[k]).0 == id;
    let first = lemma_first_entry(s, id, k0);
    assert(r[first] == (id, t));
    assert forall|m: int| 0 <= m < first implies (#[trigger] r[m]).0 != id by {
        assert(s[m].0 != id);
    }
}

} // verus!
