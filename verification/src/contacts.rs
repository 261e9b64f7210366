//! The contact book tool: contact records, the requests of the tool, and what
//! it does to the book.  The book is loaded and saved outside this crate.
use vstd::prelude::*;
use crate::containment::{lowercase, to_lowercase};
use crate::fmt::{decimal, decimal_chars};
use crate::models::{tool_error, ToolError};
use crate::params::or_default;
use crate::tags::{extract_tag_chars, opt_str_is, spec_extract_tag};
use crate::text::{
    append_chars, append_str, chars_of, contains, contains_exec, owned, split_char,
    split_char_exec, str_eq, string_of, trim, trim_exec,
};

verus! {

/// A contact.
pub struct Contact {
    pub id: String,
    pub name: String,
    pub email: Option<String>,
    pub discord_id: Option<String>,
    pub phone: Option<String>,
    pub notes: Option<String>,
    pub tags: Vec<String>,
    pub created_at: String,
    pub updated_at: String,
}

/// The abstract value of a [`Contact`].
pub struct ContactV {
    pub id: Seq<char>,
    pub name: Seq<char>,
    pub email: Option<Seq<char>>,
    pub discord_id: Option<Seq<char>>,
    pub phone: Option<Seq<char>>,
    pub notes: Option<Seq<char>>,
    pub tags: Seq<Seq<char>>,
    pub created_at: Seq<char>,
    pub updated_at: Seq<char>,
}

pub open spec fn opt_view(o: Option<String>) -> Option<Seq<char>> {
    match o {
        Some(s) => Some(s@),
        None => None,
    }
}

pub open spec fn strs(v: Seq<String>) -> Seq<Seq<char>> {
    v.map_values(|s: String| s@)
}

impl View for Contact {
    type V = ContactV;

    open spec fn view(&self) -> ContactV {
        ContactV {
            id: self.id@,
            name: self.name@,
            email: opt_view(self.email),
            discord_id: opt_view(self.discord_id),
            phone: opt_view(self.phone),
            notes: opt_view(self.notes),
            tags: strs(self.tags@),
            created_at: self.created_at@,
            updated_at: self.updated_at@,
        }
    }
}

pub open spec fn contacts_view(v: Seq<Contact>) -> Seq<ContactV> {
    v.map_values(|c: Contact| c@)
}

fn clone_opt(o: &Option<String>) -> (r: Option<String>)
    ensures
        opt_view(r) == opt_view(*o),
{
    match o {
        Some(s) => Some(s.clone()),
        None => None,
    }
}

fn clone_strs(v: &Vec<String>) -> (r: Vec<String>)
    ensures
        strs(r@) == strs(v@),
{
    let mut r: Vec<String> = Vec::new();
    let mut i: usize = 0;
    while i < v.len()
        invariant
            i <= v@.len(),
            strs(r@) == strs(v@.subrange(0, i as int)),
        decreases v.len() - i,
    {
        let ghost before = r@;
        r.push(v[i].clone());
        assert(strs(r@) =~= strs(before).push(v@[i as int]@));
        assert(strs(v@.subrange(0, i + 1)) =~= strs(v@.subrange(0, i as int)).push(v@[i as int]@));
        i = i + 1;
    }
    assert(v@.subrange(0, i as int) =~= v@);
    r
}

/// The comma-separated pieces of `s`, each trimmed.
pub open spec fn split_tags(s: Seq<char>) -> Seq<Seq<char>> {
    split_char(s, ',').map_values(|p: Seq<char>| trim(p))
}

fn split_tags_exec(s: &[char]) -> (r: Vec<String>)
    ensures
        strs(r@) == split_tags(s@),
{
    let parts = split_char_exec(s, ',');
    let mut r: Vec<String> = Vec::new();
    let mut i: usize = 0;
    while i < parts.len()
        invariant
            i <= parts@.len(),
            parts@.len() == split_char(s@, ',').len(),
            forall|k: int| 0 <= k < parts@.len() ==> #[trigger] parts@[k]@ == split_char(s@, ',')[k],
            r@.len() == i,
            forall|k: int| 0 <= k < i ==> #[trigger] r@[k]@ == trim(split_char(s@, ',')[k]),
        decreases parts.len() - i,
    {
        let t = trim_exec(parts[i].as_slice());
        r.push(string_of(t.as_slice()));
        i = i + 1;
    }
    assert(strs(r@) =~= split_tags(s@));
    r
}

// ───────────────────────── requests ─────────────────────────

/// The changes an update makes; absent fields are kept.
pub struct ContactChanges {
    pub name: Option<String>,
    pub email: Option<String>,
    pub discord_id: Option<String>,
    pub phone: Option<String>,
    pub notes: Option<String>,
    pub tags: Option<Vec<String>>,
}

/// The abstract value of [`ContactChanges`].
pub struct ChangesV {
    pub name: Option<Seq<char>>,
    pub email: Option<Seq<char>>,
    pub discord_id: Option<Seq<char>>,
    pub phone: Option<Seq<char>>,
    pub notes: Option<Seq<char>>,
    pub tags: Option<Seq<Seq<char>>>,
}

impl View for ContactChanges {
    type V = ChangesV;

    open spec fn view(&self) -> ChangesV {
        ChangesV {
            name: opt_view(self.name),
            email: opt_view(self.email),
            discord_id: opt_view(self.discord_id),
            phone: opt_view(self.phone),
            notes: opt_view(self.notes),
            tags: match self.tags {
                Some(t) => Some(strs(t@)),
                None => None,
            },
        }
    }
}

/// A request to the contact book.
pub enum ContactCommand {
    /// Add a contact; the fields are those given, `name` required.
    Add { fields: ContactChanges },
    List,
    /// Search for the lower-cased `query`.
    Search { query: String },
    Update { id: String, changes: ContactChanges },
    Delete { id: String },
}

pub enum ContactSpec {
    Add(ChangesV),
    List,
    Search(Seq<char>),
    Update(Seq<char>, ChangesV),
    Delete(Seq<char>),
}

impl View for ContactCommand {
    type V = ContactSpec;

    open spec fn view(&self) -> ContactSpec {
        match self {
            ContactCommand::Add { fields } => ContactSpec::Add(fields@),
            ContactCommand::List => ContactSpec::List,
            ContactCommand::Search { query } => ContactSpec::Search(query@),
            ContactCommand::Update { id, changes } => ContactSpec::Update(id@, changes@),
            ContactCommand::Delete { id } => ContactSpec::Delete(id@),
        }
    }
}

/// A tag's value when present and non-empty.
pub open spec fn nonempty_tag(desc: Seq<char>, tag: Seq<char>) -> Option<Seq<char>> {
    match spec_extract_tag(desc, tag) {
        Some(v) => if v.len() > 0 {
            Some(v)
        } else {
            None
        },
        None => None,
    }
}

/// The fields a description gives.
pub open spec fn spec_changes(desc: Seq<char>) -> ChangesV {
    ChangesV {
        name: spec_extract_tag(desc, "name:"@),
        email: spec_extract_tag(desc, "email:"@),
        discord_id: spec_extract_tag(desc, "discord_id:"@),
        phone: spec_extract_tag(desc, "phone:"@),
        notes: spec_extract_tag(desc, "notes:"@),
        tags: match spec_extract_tag(desc, "tags:"@) {
            Some(t) => Some(split_tags(t)),
            None => None,
        },
    }
}

/// The request `desc` makes; its action is the `action:` tag, `list` by
/// default.
pub open spec fn spec_contact_command(desc: Seq<char>) -> Result<ContactSpec, (Seq<char>, Seq<char>)> {
    let action = or_default(spec_extract_tag(desc, "action:"@), "list"@);
    if action == "add"@ {
        match nonempty_tag(desc, "name:"@) {
            Some(_) => Ok(ContactSpec::Add(spec_changes(desc))),
            None => Err(("Error: 'name:' is required."@, "Missing name"@)),
        }
    } else if action == "list"@ {
        Ok(ContactSpec::List)
    } else if action == "search"@ {
        match nonempty_tag(desc, "query:"@) {
            Some(q) => Ok(ContactSpec::Search(lowercase(q))),
            None => Err(("Error: 'query:' is required."@, "Missing query"@)),
        }
    } else if action == "update"@ || action == "delete"@ {
        match nonempty_tag(desc, "id:"@) {
            Some(id) => if action == "update"@ {
                Ok(ContactSpec::Update(id, spec_changes(desc)))
            } else {
                Ok(ContactSpec::Delete(id))
            },
            None => Err(("Error: 'id:' is required."@, "Missing id"@)),
        }
    } else {
        Err(("Error: Unknown action '"@ + action + "'. Use: add, list, search, update, delete."@, "Bad Action"@))
    }
}

fn tag_string(d: &[char], tag: &str) -> (r: Option<String>)
    ensures
        opt_str_is(r, spec_extract_tag(d@, tag@)),
{
    let g = chars_of(tag);
    match extract_tag_chars(d, g.as_slice()) {
        Some(v) => Some(string_of(v.as_slice())),
        None => None,
    }
}

fn nonempty(d: &[char], tag: &str) -> (r: Option<String>)
    ensures
        opt_str_is(r, nonempty_tag(d@, tag@)),
{
    match tag_string(d, tag) {
        Some(v) => if v.as_str().unicode_len() > 0 {
            Some(v)
        } else {
            None
        },
        None => None,
    }
}

fn changes_of(d: &[char]) -> (r: ContactChanges)
    ensures
        r@ == spec_changes(d@),
{
    let g = chars_of("tags:");
    let tags = match extract_tag_chars(d, g.as_slice()) {
        Some(t) => Some(split_tags_exec(t.as_slice())),
        None => None,
    };
    ContactChanges {
        name: tag_string(d, "name:"),
        email: tag_string(d, "email:"),
        discord_id: tag_string(d, "discord_id:"),
        phone: tag_string(d, "phone:"),
        notes: tag_string(d, "notes:"),
        tags,
    }
}

/// The contact book request that `desc` makes.
pub fn parse_contact_command(desc: &str) -> (r: Result<ContactCommand, ToolError>)
    ensures
        match spec_contact_command(desc@) {
            Ok(c) => r matches Ok(x) && x@ == c,
            Err((o, m)) => r matches Err(e) && e.output@ == o && e.reason@ == m,
        },
{
    let dv = chars_of(desc);
    let d = dv.as_slice();
    let action = match tag_string(d, "action:") {
        Some(a) => a,
        None => owned("list"),
    };
    let a = action.as_str();
    if str_eq(a, "add") {
        match nonempty(d, "name:") {
            Some(_) => Ok(ContactCommand::Add { fields: changes_of(d) }),
            None => Err(tool_error("Error: 'name:' is required.", "Missing name")),
        }
    } else if str_eq(a, "list") {
        Ok(ContactCommand::List)
    } else if str_eq(a, "search") {
        match nonempty(d, "query:") {
            Some(q) => Ok(ContactCommand::Search { query: to_lowercase(q.as_str()) }),
            None => Err(tool_error("Error: 'query:' is required.", "Missing query")),
        }
    } else if str_eq(a, "update") || str_eq(a, "delete") {
        match nonempty(d, "id:") {
            Some(id) => if str_eq(a, "update") {
                Ok(ContactCommand::Update { id, changes: changes_of(d) })
            } else {
                Ok(ContactCommand::Delete { id })
            },
            None => Err(tool_error("Error: 'id:' is required.", "Missing id")),
        }
    } else {
        let mut o: Vec<char> = Vec::new();
        append_str(&mut o, "Error: Unknown action '");
        append_str(&mut o, a);
        append_str(&mut o, "'. Use: add, list, search, update, delete.");
        Err(ToolError { output: string_of(o.as_slice()), reason: owned("Bad Action") })
    }
}

// ───────────────────────── the book ─────────────────────────

/// A new contact with the given id and fields, created and updated `now`.
pub fn new_contact(id: String, fields: ContactChanges, now: String) -> (r: Contact)
    requires
        fields.name is Some,
    ensures
        r@ == (ContactV {
            id: id@,
            name: fields@.name.unwrap(),
            email: fields@.email,
            discord_id: fields@.discord_id,
            phone: fields@.phone,
            notes: fields@.notes,
            tags: match fields@.tags {
                Some(t) => t,
                None => Seq::empty(),
            },
            created_at: now@,
            updated_at: now@,
        }),
{
    let tags = match fields.tags {
        Some(t) => t,
        None => {
            let v: Vec<String> = Vec::new();
            assert(strs(v@) =~= Seq::<Seq<char>>::empty());
            v
        },
    };
    Contact {
        id,
        name: fields.name.unwrap(),
        email: fields.email,
        discord_id: fields.discord_id,
        phone: fields.phone,
        notes: fields.notes,
        tags,
        created_at: now.clone(),
        updated_at: now,
    }
}

/// The answer to an added contact, `total` contacts now being stored.
pub fn contact_added_text(c: &Contact, total: usize) -> (r: String)
    ensures
        r@ == "Contact '"@ + c.name@ + "' added (id: "@ + c.id@ + "). Total contacts: "@ + decimal(
            total as nat,
        ),
{
    let mut o: Vec<char> = Vec::new();
    append_str(&mut o, "Contact '");
    append_str(&mut o, c.name.as_str());
    append_str(&mut o, "' added (id: ");
    append_str(&mut o, c.id.as_str());
    append_str(&mut o, "). Total contacts: ");
    let n = decimal_chars(total as u64);
    append_chars(&mut o, n.as_slice());
    string_of(o.as_slice())
}

pub open spec fn opt_part(o: Option<Seq<char>>, prefix: Seq<char>) -> Seq<char> {
    match o {
        Some(s) => prefix + s,
        None => Seq::empty(),
    }
}

/// `ls` joined with `, `.
pub open spec fn join_comma(ls: Seq<Seq<char>>) -> Seq<char>
    decreases ls.len(),
{
    if ls.len() == 0 {
        Seq::empty()
    } else if ls.len() == 1 {
        ls[0]
    } else {
        join_comma(ls.drop_last()) + ", "@ + ls.last()
    }
}

/// The head of a contact's entry: name, id, e-mail, chat id and phone.
pub open spec fn contact_head(c: ContactV) -> Seq<char> {
    "\n• "@ + c.name + " (id: "@ + c.id + ")"@ + opt_part(c.email, " | ✉ "@) + opt_part(
        c.discord_id,
        " | 🎮 "@,
    ) + opt_part(c.phone, " | 📱 "@)
}

/// A contact's entry in the full listing: its head, tags and notes.
pub open spec fn contact_entry(c: ContactV) -> Seq<char> {
    contact_head(c) + (if c.tags.len() > 0 {
        " | 🏷 "@ + join_comma(c.tags)
    } else {
        Seq::empty()
    }) + opt_part(c.notes, "\n  Notes: "@)
}

pub open spec fn contact_entries(s: Seq<ContactV>) -> Seq<char>
    decreases s.len(),
{
    if s.len() == 0 {
        Seq::empty()
    } else {
        contact_entries(s.drop_last()) + contact_entry(s.last())
    }
}

pub open spec fn spec_contact_list(s: Seq<ContactV>) -> Seq<char> {
    if s.len() == 0 {
        "No contacts found."@
    } else {
        "📒 "@ + decimal(s.len()) + " contacts:\n"@ + contact_entries(s)
    }
}

fn append_opt(o: &mut Vec<char>, v: &Option<String>, prefix: &str)
    ensures
        final(o)@ == old(o)@ + opt_part(opt_view(*v), prefix@),
{
    match v {
        Some(s) => {
            append_str(o, prefix);
            append_str(o, s.as_str());
        },
        None => {
            assert(old(o)@ + opt_part(opt_view(*v), prefix@) =~= old(o)@);
        },
    }
}

fn head_exec(o: &mut Vec<char>, c: &Contact)
    ensures
        final(o)@ == old(o)@ + contact_head(c@),
{
    let ghost start = o@;
    append_str(o, "\n• ");
    append_str(o, c.name.as_str());
    append_str(o, " (id: ");
    append_str(o, c.id.as_str());
    append_str(o, ")");
    append_opt(o, &c.email, " | ✉ ");
    append_opt(o, &c.discord_id, " | 🎮 ");
    append_opt(o, &c.phone, " | 📱 ");
    assert(o@ =~= start + contact_head(c@));
}

fn join_comma_exec(o: &mut Vec<char>, v: &Vec<String>)
    ensures
        final(o)@ == old(o)@ + join_comma(strs(v@)),
{
    let ghost start = o@;
    let mut i: usize = 0;
    while i < v.len()
        invariant
            i <= v@.len(),
            o@ == start + join_comma(strs(v@.subrange(0, i as int))),
        decreases v.len() - i,
    {
        let ghost pre = strs(v@.subrange(0, i as int));
        let ghost next = strs(v@.subrange(0, i + 1));
        assert(next.drop_last() =~= pre);
        assert(next.last() == v@[i as int]@);
        if i > 0 {
            append_str(o, ", ");
        } else {
            assert(next.len() == 1);
        }
        append_str(o, v[i].as_str());
        assert(o@ =~= start + join_comma(next));
        i = i + 1;
    }
    assert(v@.subrange(0, i as int) =~= v@);
}

/// The listing of the book.
pub fn list_contacts(contacts: &Vec<Contact>) -> (r: String)
    ensures
        r@ == spec_contact_list(contacts_view(contacts@)),
{
    let ghost s = contacts_view(contacts@);
    if contacts.len() == 0 {
        return owned("No contacts found.");
    }
    let mut o: Vec<char> = Vec::new();
    append_str(&mut o, "📒 ");
    let n = decimal_chars(contacts.len() as u64);
    append_chars(&mut o, n.as_slice());
    append_str(&mut o, " contacts:\n");
    let ghost head = o@;
    let mut i: usize = 0;
    while i < contacts.len()
        invariant
            i <= contacts@.len(),
            s == contacts_view(contacts@),
            o@ == head + contact_entries(s.subrange(0, i as int)),
        decreases contacts.len() - i,
    {
        assert(s.subrange(0, i + 1).drop_last() =~= s.subrange(0, i as int));
        let c = &contacts[i];
        assert(s[i as int] == c@);
        let ghost before = o@;
        head_exec(&mut o, c);
        if c.tags.len() > 0 {
            append_str(&mut o, " | 🏷 ");
            join_comma_exec(&mut o, &c.tags);
        }
        append_opt(&mut o, &c.notes, "\n  Notes: ");
        assert(o@ =~= before + contact_entry(c@));
        i = i + 1;
    }
    assert(s.subrange(0, i as int) =~= s);
    string_of(o.as_slice())
}

/// Some tag, lower-cased, holds `q`.
pub open spec fn any_tag_holds(tags: Seq<Seq<char>>, q: Seq<char>) -> bool
    decreases tags.len(),
{
    tags.len() > 0 && (any_tag_holds(tags.drop_last(), q) || contains(lowercase(tags.last()), q))
}

pub open spec fn opt_holds(o: Option<Seq<char>>, q: Seq<char>, lower: bool) -> bool {
    match o {
        Some(s) => contains(if lower { lowercase(s) } else { s }, q),
        None => false,
    }
}

/// A contact matches a lower-cased query when its lower-cased name, e-mail,
/// chat id, a tag or its notes, or its phone as written, holds the query.
pub open spec fn contact_matches(c: ContactV, q: Seq<char>) -> bool {
    ||| contains(lowercase(c.name), q)
    ||| opt_holds(c.email, q, true)
    ||| opt_holds(c.discord_id, q, true)
    ||| opt_holds(c.phone, q, false)
    ||| any_tag_holds(c.tags, q)
    ||| opt_holds(c.notes, q, true)
}

pub open spec fn matching(s: Seq<ContactV>, q: Seq<char>) -> Seq<ContactV>
    decreases s.len(),
{
    if s.len() == 0 {
        s
    } else {
        let p = matching(s.drop_last(), q);
        if contact_matches(s.last(), q) {
            p.push(s.last())
        } else {
            p
        }
    }
}

pub open spec fn contact_heads(s: Seq<ContactV>) -> Seq<char>
    decreases s.len(),
{
    if s.len() == 0 {
        Seq::empty()
    } else {
        contact_heads(s.drop_last()) + contact_head(s.last())
    }
}

/// The answer to a search for the lower-cased query `q`.
pub open spec fn spec_search(s: Seq<ContactV>, q: Seq<char>) -> Seq<char> {
    let m = matching(s, q);
    if m.len() == 0 {
        "No contacts matching '"@ + q + "'."@
    } else {
        "Found "@ + decimal(m.len()) + " match(es) for '"@ + q + "':\n"@ + contact_heads(m)
    }
}

fn holds(s: &str, q: &[char], lower: bool) -> (r: bool)
    ensures
        r == contains(if lower { lowercase(s@) } else { s@ }, q@),
{
    if lower {
        let l = to_lowercase(s);
        let c = chars_of(l.as_str());
        contains_exec(c.as_slice(), q)
    } else {
        let c = chars_of(s);
        contains_exec(c.as_slice(), q)
    }
}

fn opt_holds_exec(o: &Option<String>, q: &[char], lower: bool) -> (r: bool)
    ensures
        r == opt_holds(opt_view(*o), q@, lower),
{
    match o {
        Some(s) => holds(s.as_str(), q, lower),
        None => false,
    }
}

fn any_tag_exec(tags: &Vec<String>, q: &[char]) -> (r: bool)
    ensures
        r == any_tag_holds(strs(tags@), q@),
{
    let mut found = false;
    let mut i: usize = 0;
    while i < tags.len()
        invariant
            i <= tags@.len(),
            found == any_tag_holds(strs(tags@.subrange(0, i as int)), q@),
        decreases tags.len() - i,
    {
        assert(strs(tags@.subrange(0, i + 1)).drop_last() =~= strs(tags@.subrange(0, i as int)));
        assert(strs(tags@.subrange(0, i + 1)).last() == tags@[i as int]@);
        let h = holds(tags[i].as_str(), q, true);
        found = found || h;
        i = i + 1;
    }
    assert(tags@.subrange(0, i as int) =~= tags@);
    found
}

fn matches_exec(c: &Contact, q: &[char]) -> (r: bool)
    ensures
        r == contact_matches(c@, q@),
{
    holds(c.name.as_str(), q, true) || opt_holds_exec(&c.email, q, true) || opt_holds_exec(
        &c.discord_id,
        q,
        true,
    ) || opt_holds_exec(&c.phone, q, false) || any_tag_exec(&c.tags, q) || opt_holds_exec(
        &c.notes,
        q,
        true,
    )
}

/// The answer to a search of the book for the lower-cased `query`.
pub fn search_contacts(contacts: &Vec<Contact>, query: &str) -> (r: String)
    ensures
        r@ == spec_search(contacts_view(contacts@), query@),
{
    let ghost s = contacts_view(contacts@);
    let q = chars_of(query);
    let mut body: Vec<char> = Vec::new();
    let mut count: usize = 0;
    let mut i: usize = 0;
    while i < contacts.len()
        invariant
            i <= contacts@.len(),
            s == contacts_view(contacts@),
            q@ == query@,
            count == matching(s.subrange(0, i as int), query@).len(),
            body@ == contact_heads(matching(s.subrange(0, i as int), query@)),
            count <= i,
        decreases contacts.len() - i,
    {
        assert(s.subrange(0, i + 1).drop_last() =~= s.subrange(0, i as int));
        let c = &contacts[i];
        assert(s[i as int] == c@);
        if matches_exec(c, q.as_slice()) {
            let ghost p = matching(s.subrange(0, i as int), query@);
            assert(p.push(c@).drop_last() =~= p);
            head_exec(&mut body, c);
            count = count + 1;
        }
        i = i + 1;
    }
    assert(s.subrange(0, i as int) =~= s);
    let mut o: Vec<char> = Vec::new();
    if count == 0 {
        append_str(&mut o, "No contacts matching '");
        append_str(&mut o, query);
        append_str(&mut o, "'.");
    } else {
        append_str(&mut o, "Found ");
        let n = decimal_chars(count as u64);
        append_chars(&mut o, n.as_slice());
        append_str(&mut o, " match(es) for '");
        append_str(&mut o, query);
        append_str(&mut o, "':\n");
        append_chars(&mut o, body.as_slice());
    }
    string_of(o.as_slice())
}

// ───────────────────────── changes ─────────────────────────

/// The position of the first contact whose id is `id`.
pub open spec fn first_with_id(s: Seq<ContactV>, id: Seq<char>) -> Option<int>
    decreases s.len(),
{
    if s.len() == 0 {
        None
    } else {
        match first_with_id(s.drop_last(), id) {
            Some(i) => Some(i),
            None => if s.last().id == id {
                Some(s.len() - 1)
            } else {
                None
            },
        }
    }
}

pub proof fn lemma_first_with_id(s: Seq<ContactV>, id: Seq<char>)
    ensures
        match first_with_id(s, id) {
            Some(k) => 0 <= k < s.len() && s[k].id == id && forall|j: int|
                0 <= j < k ==> s[j].id != id,
            None => forall|j: int| 0 <= j < s.len() ==> s[j].id != id,
        },
    decreases s.len(),
{
    if s.len() > 0 {
        lemma_first_with_id(s.drop_last(), id);
        assert forall|j: int| 0 <= j < s.len() - 1 implies s.drop_last()[j] == s[j] by {}
    }
}

/// A contact after the changes `ch`, updated `now`.
pub open spec fn applied(c: ContactV, ch: ChangesV, now: Seq<char>) -> ContactV {
    ContactV {
        name: match ch.name {
            Some(n) => n,
            None => c.name,
        },
        email: if ch.email is Some { ch.email } else { c.email },
        discord_id: if ch.discord_id is Some { ch.discord_id } else { c.discord_id },
        phone: if ch.phone is Some { ch.phone } else { c.phone },
        notes: if ch.notes is Some { ch.notes } else { c.notes },
        tags: match ch.tags {
            Some(t) => t,
            None => c.tags,
        },
        updated_at: now,
        ..c
    }
}

fn pick(new: &Option<String>, old: &Option<String>) -> (r: Option<String>)
    ensures
        opt_view(r) == if opt_view(*new) is Some { opt_view(*new) } else { opt_view(*old) },
{
    match new {
        Some(n) => Some(n.clone()),
        None => clone_opt(old),
    }
}

fn first_position(contacts: &Vec<Contact>, id: &str) -> (r: Option<usize>)
    ensures
        match first_with_id(contacts_view(contacts@), id@) {
            Some(k) => r matches Some(p) && p as int == k,
            None => r is None,
        },
{
    let ghost s = contacts_view(contacts@);
    proof {
        lemma_first_with_id(s, id@);
    }
    let mut i: usize = 0;
    while i < contacts.len()
        invariant
            i <= contacts@.len(),
            s == contacts_view(contacts@),
            forall|j: int| 0 <= j < i ==> s[j].id != id@,
        decreases contacts.len() - i,
    {
        assert(s[i as int] == contacts@[i as int]@);
        if str_eq(contacts[i].id.as_str(), id) {
            proof {
                lemma_first_with_id(s, id@);
                match first_with_id(s, id@) {
                    Some(k) => {
                        if k > i {
                            assert(s[i as int].id != id@);
                        }
                    },
                    None => {
                        assert(s[i as int].id != id@);
                    },
                }
            }
            return Some(i);
        }
        i = i + 1;
    }
    None
}

/// Apply `changes` to the first contact with id `id`, updated `now`; refused,
/// with nothing changed, when there is none.
pub fn update_contact(contacts: &mut Vec<Contact>, id: &str, changes: &ContactChanges, now: String) -> (r: Result<String, ToolError>)
    ensures
        match first_with_id(contacts_view(old(contacts)@), id@) {
            Some(k) => {
                let c = applied(contacts_view(old(contacts)@)[k], changes@, now@);
                &&& contacts_view(final(contacts)@) == contacts_view(old(contacts)@).update(k, c)
                &&& r matches Ok(m) && m@ == "Contact '"@ + c.name + "' (id: "@ + id@ + ") updated."@
            },
            None => contacts_view(final(contacts)@) == contacts_view(old(contacts)@) && (r matches Err(e)
                && e.output@ == "No contact with id '"@ + id@ + "'."@ && e.reason@ == "Not found"@),
        },
{
    match first_position(contacts, id) {
        None => {
            let mut o: Vec<char> = Vec::new();
            append_str(&mut o, "No contact with id '");
            append_str(&mut o, id);
            append_str(&mut o, "'.");
            Err(ToolError { output: string_of(o.as_slice()), reason: owned("Not found") })
        },
        Some(k) => {
            proof {
                lemma_first_with_id(contacts_view(contacts@), id@);
            }
            let old_c = &contacts[k];
            let name = match &changes.name {
                Some(n) => n.clone(),
                None => old_c.name.clone(),
            };
            let tags = match &changes.tags {
                Some(t) => clone_strs(t),
                None => clone_strs(&old_c.tags),
            };
            let c = Contact {
                id: old_c.id.clone(),
                name,
                email: pick(&changes.email, &old_c.email),
                discord_id: pick(&changes.discord_id, &old_c.discord_id),
                phone: pick(&changes.phone, &old_c.phone),
                notes: pick(&changes.notes, &old_c.notes),
                tags,
                created_at: old_c.created_at.clone(),
                updated_at: now,
            };
            assert(c@ == applied(old_c@, changes@, now@));
            let mut o: Vec<char> = Vec::new();
            append_str(&mut o, "Contact '");
            append_str(&mut o, c.name.as_str());
            append_str(&mut o, "' (id: ");
            append_str(&mut o, id);
            append_str(&mut o, ") updated.");
            let ghost before = contacts@;
            let ghost cv = c@;
            contacts.set(k, c);
            assert(contacts_view(contacts@) =~= contacts_view(before).update(k as int, cv));
            Ok(string_of(o.as_slice()))
        },
    }
}

/// `s` without the contacts whose id is `id`.
pub open spec fn contacts_without(s: Seq<ContactV>, id: Seq<char>) -> Seq<ContactV>
    decreases s.len(),
{
    if s.len() == 0 {
        s
    } else {
        let p = contacts_without(s.drop_last(), id);
        if s.last().id == id {
            p
        } else {
            p.push(s.last())
        }
    }
}

/// Remove the contacts whose id is `id`; refused, with nothing removed, when
/// there is none.
pub fn delete_contact(contacts: &mut Vec<Contact>, id: &str) -> (r: Result<String, ToolError>)
    ensures
        contacts_view(final(contacts)@) == contacts_without(contacts_view(old(contacts)@), id@),
        contacts_without(contacts_view(old(contacts)@), id@).len() == old(contacts)@.len() ==> (r matches Err(e)
            && e.output@ == "No contact with id '"@ + id@ + "'."@ && e.reason@ == "Not found"@),
        contacts_without(contacts_view(old(contacts)@), id@).len() < old(contacts)@.len() ==> (r matches Ok(m) && m@
            == "Contact '"@ + id@ + "' deleted. "@ + decimal(final(contacts)@.len()) + " contacts remaining."@),
{
    let ghost s0 = contacts_view(contacts@);
    let n0 = contacts.len();
    let mut i: usize = 0;
    let mut j: usize = 0;
    assert(s0.subrange(0, 0) =~= Seq::<ContactV>::empty());
    assert(s0.subrange(0, s0.len() as int) =~= s0);
    assert(contacts_view(contacts@) =~= contacts_without(s0.subrange(0, 0), id@) + s0.subrange(0, n0 as int));
    while j < n0
        invariant
            n0 == s0.len(),
            i <= j <= n0,
            contacts_view(contacts@) == contacts_without(s0.subrange(0, j as int), id@) + s0.subrange(j as int, n0 as int),
            i == contacts_without(s0.subrange(0, j as int), id@).len(),
        decreases n0 - j,
    {
        assert(s0.subrange(0, j + 1).drop_last() =~= s0.subrange(0, j as int));
        let ghost p = contacts_without(s0.subrange(0, j as int), id@);
        let ghost before = contacts@;
        assert(contacts_view(before).len() == before.len());
        assert(i < before.len());
        assert(contacts_view(before)[i as int] == s0[j as int]);
        assert(contacts@[i as int]@ == s0[j as int]);
        if str_eq(contacts[i].id.as_str(), id) {
            let ghost bv = contacts_view(before);
            let _gone = contacts.remove(i);
            let ghost target = p + s0.subrange(j + 1, n0 as int);
            assert forall|x: int| 0 <= x < contacts@.len() implies #[trigger] contacts@[x]@ == target[x] by {
                if x < i {
                    assert(contacts@[x] == before[x]);
                    assert(bv[x] == before[x]@);
                } else {
                    assert(contacts@[x] == before[x + 1]);
                    assert(bv[x + 1] == before[x + 1]@);
                }
            }
            assert(contacts_view(contacts@) =~= target);
        } else {
            assert(contacts_view(contacts@) =~= p.push(s0[j as int]) + s0.subrange(j + 1, n0 as int));
            i = i + 1;
        }
        j = j + 1;
    }
    assert(contacts_view(contacts@) =~= contacts_without(s0, id@));
    if contacts.len() == n0 {
        let mut o: Vec<char> = Vec::new();
        append_str(&mut o, "No contact with id '");
        append_str(&mut o, id);
        append_str(&mut o, "'.");
        return Err(ToolError { output: string_of(o.as_slice()), reason: owned("Not found") });
    }
    let mut o: Vec<char> = Vec::new();
    append_str(&mut o, "Contact '");
    append_str(&mut o, id);
    append_str(&mut o, "' deleted. ");
    let n = decimal_chars(contacts.len() as u64);
    append_chars(&mut o, n.as_slice());
    append_str(&mut o, " contacts remaining.");
    Ok(string_of(o.as_slice()))
}


/// After a deletion by id no contact with that id is left, every other contact
/// stays in its order, and the deletion is refused exactly when no contact
/// had that id.
pub proof fn law_deleted_contact_is_gone(s: Seq<ContactV>, id: Seq<char>)
    ensures
        forall|i: int| 0 <= i < contacts_without(s, id).len() ==> #[trigger] contacts_without(s, id)[i].id != id,
        forall|j: int| 0 <= j < s.len() && s[j].id != id ==> contacts_without(s, id).contains(#[trigger] s[j]),
        contacts_without(s, id).len() <= s.len(),
        contacts_without(s, id).len() == s.len() <==> forall|j: int| 0 <= j < s.len() ==> #[trigger] s[j].id != id,
    decreases s.len(),
{
    if s.len() > 0 {
        let d = s.drop_last();
        law_deleted_contact_is_gone(d, id);
        let p = contacts_without(d, id);
        assert forall|j: int| 0 <= j < s.len() && s[j].id != id implies contacts_without(s, id).contains(#[trigger] s[j]) by {
            if j < s.len() - 1 {
                assert(d[j] == s[j]);
                let k = choose|k: int| 0 <= k < p.len() && p[k] == d[j];
                if s.last().id != id {
                    assert(p.push(s.last())[k] == s[j]);
                }
            } else {
                assert(p.push(s.last())[p.len() as int] == s[j]);
            }
        }
        if contacts_without(s, id).len() == s.len() {
            if s.last().id == id {
                assert(false);
            }
            assert forall|j: int| 0 <= j < s.len() implies #[trigger] s[j].id != id by {
                if j < s.len() - 1 {
                    assert(d[j] == s[j]);
                }
            }
        }
        if forall|j: int| 0 <= j < s.len() ==> #[trigger] s[j].id != id {
            assert forall|j: int| 0 <= j < d.len() implies #[trigger] d[j].id != id by {
                assert(d[j] == s[j]);
            }
            assert(s[s.len() - 1].id != id);
        }
    }
}

} // verus!
