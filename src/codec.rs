use vstd::prelude::*;
use crate::framework::{fields_of, opt_view, Framework};

verus! {

#[verifier::external_type_specification]
#[verifier::external_body]
pub struct ExJsonError(serde_json::Error);

/// The key of a descriptor's name in the registry file.
pub const NAME_KEY: &'static str = "name";

/// The key of a descriptor's listing command in the registry file.
pub const LIST_KEY: &'static str = "list_cmd";

/// The key of a descriptor's run command in the registry file.
pub const RUN_KEY: &'static str = "run_cmd";

/// A field of a descriptor in the registry file.
#[derive(Debug, Clone, Copy, PartialEq, Eq)]
pub enum Field {
    Name,
    ListCmd,
    RunCmd,
}

/// Why a registry text could not be read.
#[derive(Debug, Clone, Copy, PartialEq, Eq)]
pub enum RegistryError {
    /// The text is not JSON.
    Syntax,
    /// The JSON is not an array.
    NotAList,
    /// The descriptor at `index` lacks `field`, or holds no string there.
    MissingField { index: usize, field: Field },
}

/// The three string fields read from one entry of the registry file.
pub type Entry = (Option<String>, Option<String>, Option<String>);

/// The characters of the fields read from one entry.
pub type EntryView = (Option<Seq<char>>, Option<Seq<char>>, Option<Seq<char>>);

/// The three fields of a descriptor, as characters.
pub type Fields = (Seq<char>, Seq<char>, Seq<char>);

pub open spec fn entry_view(e: Entry) -> EntryView {
    (opt_view(e.0), opt_view(e.1), opt_view(e.2))
}

pub open spec fn entries_view(es: Seq<Entry>) -> Seq<EntryView> {
    es.map_values(|e: Entry| entry_view(e))
}

pub open spec fn registry_fields(r: Seq<Framework>) -> Seq<Fields> {
    r.map_values(|f: Framework| fields_of(f))
}

/// What serde_json reads from `text` with the given keys: `None` when the
/// text is not JSON, `Some(None)` when it is JSON but no array, and else, for
/// each item of the array in order, the string stored under each key (`None`
/// where the item is no object, lacks the key, or holds no string there).
pub uninterp spec fn json_entries(
    text: Seq<char>,
    name_key: Seq<char>,
    list_key: Seq<char>,
    run_key: Seq<char>,
) -> Option<Option<Seq<EntryView>>>;

/// The pretty-printed JSON text that serde_json writes for an array with one
/// object per descriptor, each holding its three fields under the given keys.
pub uninterp spec fn pretty_registry(
    fields: Seq<Fields>,
    name_key: Seq<char>,
    list_key: Seq<char>,
    run_key: Seq<char>,
) -> Seq<char>;

pub open spec fn complete(e: EntryView) -> bool {
    e.0 is Some && e.1 is Some && e.2 is Some
}

/// The first field that an incomplete entry lacks.
pub open spec fn first_missing(e: EntryView) -> Field {
    if e.0 is None {
        Field::Name
    } else if e.1 is None {
        Field::ListCmd
    } else {
        Field::RunCmd
    }
}

/// The descriptor fields that a complete entry gives.
pub open spec fn entry_fields(e: EntryView) -> Fields {
    (e.0->Some_0, e.1->Some_0, e.2->Some_0)
}

/// `r` is the outcome of building a registry from `es`: the descriptors of
/// the entries in order when all are complete, else an error naming the
/// first incomplete entry and the first field it lacks.
pub open spec fn builds(es: Seq<EntryView>, r: Result<Vec<Framework>, RegistryError>) -> bool {
    &&& r is Ok <==> forall|i: int| 0 <= i < es.len() ==> complete(#[trigger] es[i])
    &&& r matches Ok(v) ==> registry_fields(v@) == es.map_values(|e: EntryView| entry_fields(e))
    &&& r matches Err(e) ==> exists|k: int|
        0 <= k < es.len() && !complete(#[trigger] es[k]) && (forall|j: int|
            0 <= j < k ==> complete(#[trigger] es[j])) && e == (RegistryError::MissingField {
            index: k as usize,
            field: first_missing(es[k]),
        })
}

/// Builds the registry from the fields read for each entry. Loading is
/// strict: the first entry that lacks a field fails the whole registry,
/// and the error names that entry and the field.
pub fn registry_from_entries(entries: &Vec<Entry>) -> (r: Result<Vec<Framework>, RegistryError>)
    ensures
        builds(entries_view(entries@), r),
{
    let ghost es = entries_view(entries@);
    let mut v: Vec<Framework> = Vec::new();
    let mut i: usize = 0;
    while i < entries.len()
        invariant
            i <= entries@.len(),
            es == entries_view(entries@),
            v@.len() == i,
            forall|j: int| 0 <= j < i ==> complete(#[trigger] es[j]),
            forall|j: int| 0 <= j < i ==> fields_of(#[trigger] v@[j]) == entry_fields(es[j]),
        decreases entries@.len() - i,
    {
        let e = &entries[i];
        assert(es[i as int] == entry_view(*e));
        match (&e.0, &e.1, &e.2) {
            (Some(name), Some(list_cmd), Some(run_cmd)) => {
                v.push(Framework::new(name.clone(), list_cmd.clone(), run_cmd.clone()));
            },
            _ => {
                let field = if e.0.is_none() {
                    Field::Name
                } else if e.1.is_none() {
                    Field::ListCmd
                } else {
                    Field::RunCmd
                };
                let r = Err(RegistryError::MissingField { index: i, field });
                assert(!complete(es[i as int]));
                return r;
            },
        }
        i += 1;
    }
    assert(registry_fields(v@) =~= es.map_values(|e: EntryView| entry_fields(e)));
    Ok(v)
}

pub open spec fn read_view(r: Option<Option<Vec<Entry>>>) -> Option<Option<Seq<EntryView>>> {
    match r {
        None => None,
        Some(None) => Some(None),
        Some(Some(v)) => Some(Some(entries_view(v@))),
    }
}

/// Relies on `serde_json::from_str` into a `serde_json::Value`, and on
/// `Value::get` and `Value::as_str` for each item of an array: reads the
/// string fields under the three keys of every item.
#[verifier::external_body]
fn read_entries(
    text: &str,
    name_key: &str,
    list_key: &str,
    run_key: &str,
) -> (r: Option<Option<Vec<Entry>>>)
    ensures
        read_view(r) == json_entries(text@, name_key@, list_key@, run_key@),
{
    let field = |item: &serde_json::Value, key: &str| item.get(key).and_then(|v| v.as_str()).map(String::from);
    match serde_json::from_str::<serde_json::Value>(text) {
        Err(_) => None,
        Ok(serde_json::Value::Array(items)) => Some(Some(
            items.iter().map(|i| (field(i, name_key), field(i, list_key), field(i, run_key))).collect(),
        )),
        Ok(_) => Some(None),
    }
}

/// Reads a registry from the text of the registry file: a JSON array of
/// objects, each with the string fields `name`, `list_cmd` and `run_cmd`.
/// Text that is not JSON gives `Syntax`, JSON that is no array gives
/// `NotAList`, and an entry that lacks a field gives `MissingField`: no
/// partial registry is ever returned.
pub fn decode_registry(text: &str) -> (r: Result<Vec<Framework>, RegistryError>)
    ensures
        json_entries(text@, NAME_KEY@, LIST_KEY@, RUN_KEY@) is None ==> r == Err::<
            Vec<Framework>,
            RegistryError,
        >(RegistryError::Syntax),
        json_entries(text@, NAME_KEY@, LIST_KEY@, RUN_KEY@) == Some::<Option<Seq<EntryView>>>(None)
            ==> r == Err::<Vec<Framework>, RegistryError>(RegistryError::NotAList),
        json_entries(text@, NAME_KEY@, LIST_KEY@, RUN_KEY@) matches Some(Some(es)) ==> builds(
            es,
            r,
        ),
{
    match read_entries(text, NAME_KEY, LIST_KEY, RUN_KEY) {
        None => Err(RegistryError::Syntax),
        Some(None) => Err(RegistryError::NotAList),
        Some(Some(entries)) => registry_from_entries(&entries),
    }
}

/// Relies on `serde_json::to_string_pretty` on a `serde_json::Value` array
/// of objects holding each descriptor's fields under the three keys. Its
/// documentation says it fails only where a `Serialize` impl fails or a map
/// has keys that are not strings, neither of which can happen on such a value.
#[verifier::external_body]
fn write_pretty(
    frameworks: &Vec<Framework>,
    name_key: &str,
    list_key: &str,
    run_key: &str,
) -> (r: Result<String, serde_json::Error>)
    ensures
        r is Ok,
        r->Ok_0@ == pretty_registry(registry_fields(frameworks@), name_key@, list_key@, run_key@),
{
    let text = |s: &String| serde_json::Value::String(s.clone());
    let items: Vec<serde_json::Value> = frameworks.iter().map(|f| serde_json::Value::Object(
        [(name_key.to_string(), text(&f.name)), (list_key.to_string(), text(&f.list_cmd)),
         (run_key.to_string(), text(&f.run_cmd))].into_iter().collect(),
    )).collect();
    serde_json::to_string_pretty(&serde_json::Value::Array(items))
}

/// Writes a registry as the text of the registry file: a pretty-printed
/// JSON array with one object per descriptor, in registry order, each with
/// the fields `name`, `list_cmd` and `run_cmd`.
pub fn encode_registry(frameworks: &Vec<Framework>) -> (r: String)
    ensures
        r@ == pretty_registry(registry_fields(frameworks@), NAME_KEY@, LIST_KEY@, RUN_KEY@),
{
    match write_pretty(frameworks, NAME_KEY, LIST_KEY, RUN_KEY) {
        Ok(text) => text,
        Err(_) => String::new(),
    }
}

/// The entries that reading back the fields of `fields` gives when each is
/// found as written.
pub open spec fn as_entries(fields: Seq<Fields>) -> Seq<EntryView> {
    fields.map_values(|f: Fields| (Some(f.0), Some(f.1), Some(f.2)))
}

/// Loading loses nothing that saving wrote: where serde_json reads the saved
/// text of `r` back as the fields that were written, in order, what
/// `decode_registry` makes of that text (any `loaded` that meets its
/// contract there) is a registry equal in content to `r`.
pub proof fn lemma_load_after_save(r: Seq<Framework>, loaded: Result<Vec<Framework>, RegistryError>)
    requires
        json_entries(
            pretty_registry(registry_fields(r), NAME_KEY@, LIST_KEY@, RUN_KEY@),
            NAME_KEY@,
            LIST_KEY@,
            RUN_KEY@,
        ) == Some(Some(as_entries(registry_fields(r)))),
        json_entries(
            pretty_registry(registry_fields(r), NAME_KEY@, LIST_KEY@, RUN_KEY@),
            NAME_KEY@,
            LIST_KEY@,
            RUN_KEY@,
        ) matches Some(Some(es)) ==> builds(es, loaded),
    ensures
        loaded is Ok,
        registry_fields(loaded->Ok_0@) == registry_fields(r),
{
    let es = as_entries(registry_fields(r));
    assert forall|i: int| 0 <= i < es.len() implies complete(#[trigger] es[i]) by {}
    let v = loaded->Ok_0;
    assert(es.map_values(|e: EntryView| entry_fields(e)) =~= registry_fields(r));
}

} // verus!
