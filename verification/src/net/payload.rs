//! The metadata of a DAO as documents for the content store: one node for
//! each module, and one root document that refers to the nodes.

use crate::net::error::Error;
use crate::text::texts;
use vstd::prelude::*;
use vstd::string::*;

verus! {

/// The identifier under which the content store holds a piece of content.
#[derive(Debug, Clone, PartialEq, Eq)]
pub struct ContentRef {
    pub id: String,
}

/// The JSON string literal, quotes and escapes included, that
/// `serde_json` writes for a text.
pub uninterp spec fn json_string(text: Seq<char>) -> Seq<char>;

/// `serde_json::to_string` on a string: the text as a JSON string literal.
/// The same text always gives the same literal. Writing a string into
/// memory has no way to fail, so a literal is always returned.
#[verifier::external_body]
fn to_json_string(text: &str) -> (quoted: Option<String>)
    ensures
        quoted is Some,
        quoted matches Some(literal) ==> literal@ == json_string(text@),
{
    serde_json::to_string(text).ok()
}

/// A reference to stored content, as linked-data documents write it:
/// an object whose one entry `/` holds the identifier, given here as a
/// JSON string literal.
pub open spec fn link_frame(quoted_id: Seq<char>) -> Seq<char> {
    "{\"/\":"@ + quoted_id + "}"@
}

/// The node of one module: its loader and its module, each as a list of
/// one reference.
pub open spec fn module_frame(loader_link: Seq<char>, module_link: Seq<char>) -> Seq<char> {
    "{\"loader\":["@ + loader_link + "],\"module\":["@ + module_link + "]}"@
}

/// References written one after the other, with commas between them.
pub open spec fn joined(links: Seq<Seq<char>>) -> Seq<char>
    decreases links.len(),
{
    if links.len() == 0 {
        Seq::empty()
    } else if links.len() == 1 {
        links[0]
    } else {
        joined(links.drop_last()) + ","@ + links.last()
    }
}

/// The root document: title, description and the references to the
/// module nodes, in this order.
pub open spec fn metadata_frame(
    quoted_title: Seq<char>,
    quoted_description: Seq<char>,
    links: Seq<Seq<char>>,
) -> Seq<char> {
    "{\"title\":"@ + quoted_title + ",\"description\":"@ + quoted_description + ",\"payload\":["@
        + joined(links) + "]}"@
}

/// The reference to the content stored under `id`.
pub open spec fn link_json(id: Seq<char>) -> Seq<char> {
    link_frame(json_string(id))
}

/// The node of a module whose loader is stored under `loader` and whose
/// module is stored under `module`.
pub open spec fn module_json(loader: Seq<char>, module: Seq<char>) -> Seq<char> {
    module_frame(link_json(loader), link_json(module))
}

/// The root document of a DAO whose module nodes are stored under
/// `payload`: it holds exactly one reference for each of them, in their
/// order.
pub open spec fn metadata_json(
    title: Seq<char>,
    description: Seq<char>,
    payload: Seq<Seq<char>>,
) -> Seq<char> {
    metadata_frame(
        json_string(title),
        json_string(description),
        Seq::new(payload.len(), |i: int| link_json(payload[i])),
    )
}

/// Writes a reference around an identifier that is already a JSON string
/// literal.
pub fn frame_link(quoted_id: &str) -> (link: String)
    ensures
        link@ == link_frame(quoted_id@),
{
    String::from_str("{\"/\":").concat(quoted_id).concat("}")
}

/// Writes the node of one module around the references to its loader and
/// to its module.
pub fn frame_module(loader_link: &str, module_link: &str) -> (node: String)
    ensures
        node@ == module_frame(loader_link@, module_link@),
{
    String::from_str("{\"loader\":[").concat(loader_link).concat("],\"module\":[").concat(
        module_link,
    ).concat("]}")
}

/// Writes the root document around a title and a description that are
/// already JSON string literals, and the references to the module nodes.
pub fn frame_metadata(quoted_title: &str, quoted_description: &str, links: &Vec<String>) -> (
    document: String)
    ensures
        document@ == metadata_frame(quoted_title@, quoted_description@, texts(links@)),
{
    let mut list = String::new();
    let mut i: usize = 0;
    while i < links.len()
        invariant
            i <= links.len(),
            list@ == joined(texts(links@).take(i as int)),
        decreases links.len() - i,
    {
        proof {
            let before = texts(links@).take(i as int);
            let after = texts(links@).take(i + 1);
            assert(after.drop_last() =~= before);
            assert(after.last() == links[i as int]@);
            if i == 0 {
                assert(after[0] == links[0]@);
                assert(Seq::<char>::empty() + links[0]@ =~= links[0]@);
            }
        }
        if i > 0 {
            list.append(",");
        }
        list.append(links[i].as_str());
        i += 1;
    }
    assert(texts(links@).take(links.len() as int) =~= texts(links@));
    String::from_str("{\"title\":").concat(quoted_title).concat(",\"description\":").concat(
        quoted_description,
    ).concat(",\"payload\":[").concat(list.as_str()).concat("]}")
}

/// The reference to a piece of stored content, as documents write it.
pub fn link(target: &ContentRef) -> (link: String)
    ensures
        link@ == link_json(target.id@),
{
    match to_json_string(target.id.as_str()) {
        Some(quoted) => frame_link(quoted.as_str()),
        None => String::new(),
    }
}

/// The node to store for one module, once its loader and its module are
/// stored: it refers to the loader under `loader` and to the module under
/// `module`.
pub fn module_node(loader: &ContentRef, module: &ContentRef) -> (node: String)
    ensures
        node@ == module_json(loader.id@, module.id@),
{
    let loader_link = link(loader);
    let module_link = link(module);
    frame_module(loader_link.as_str(), module_link.as_str())
}

/// The identifiers of some references, in their order.
pub open spec fn ids(entries: Seq<ContentRef>) -> Seq<Seq<char>> {
    Seq::new(entries.len(), |i: int| entries[i].id@)
}

/// The root document to store for a DAO whose module nodes are stored
/// under `payload`.
pub fn metadata_document(title: &str, description: &str, payload: &Vec<ContentRef>) -> (document:
    String)
    ensures
        document@ == metadata_json(title@, description@, ids(payload@)),
{
    let mut links: Vec<String> = Vec::new();
    let mut i: usize = 0;
    while i < payload.len()
        invariant
            i <= payload.len(),
            links.len() == i,
            forall|k: int| 0 <= k < i ==> (#[trigger] links[k])@ == link_json(payload[k].id@),
        decreases payload.len() - i,
    {
        links.push(link(&payload[i]));
        i += 1;
    }
    assert(texts(links@) =~= Seq::new(
        ids(payload@).len(),
        |i: int| link_json(ids(payload@)[i]),
    ));
    let quoted_title = to_json_string(title);
    let quoted_description = to_json_string(description);
    match (quoted_title, quoted_description) {
        (Some(t), Some(d)) => frame_metadata(t.as_str(), d.as_str(), &links),
        _ => String::new(),
    }
}

/// Whether every module was stored.
pub open spec fn all_stored(entries: Seq<Result<ContentRef, Error>>) -> bool {
    forall|i: int| 0 <= i < entries.len() ==> (#[trigger] entries[i]) is Ok
}

/// The position of the first module that was not stored.
pub open spec fn first_failure(entries: Seq<Result<ContentRef, Error>>) -> int
    decreases entries.len(),
{
    if entries.len() == 0 || entries[0] is Err {
        0
    } else {
        1 + first_failure(entries.drop_first())
    }
}

/// The references of modules that were all stored, in their order.
pub open spec fn stored(entries: Seq<Result<ContentRef, Error>>) -> Seq<ContentRef> {
    Seq::new(entries.len(), |i: int| entries[i]->Ok_0)
}

/// Joins the outcomes of storing the modules: the references of all of
/// them, in the order of the modules, or the error of the first module
/// that failed.
pub fn join_entries(entries: Vec<Result<ContentRef, Error>>) -> (joined: Result<
    Vec<ContentRef>,
    Error,
>)
    ensures
        joined is Ok <==> all_stored(entries@),
        joined matches Ok(payload) ==> payload@ == stored(entries@),
        joined matches Err(error) ==> {
            &&& 0 <= first_failure(entries@) < entries.len()
            &&& entries[first_failure(entries@)] == Err::<ContentRef, Error>(error)
        },
{
    let ghost all = entries@;
    let mut pending = entries;
    let mut payload: Vec<ContentRef> = Vec::new();
    let mut rest: Vec<Result<ContentRef, Error>> = Vec::new();
    // Taking the outcomes from the back leaves them in `rest` in reverse.
    while pending.len() > 0
        invariant
            pending.len() + rest.len() == all.len(),
            forall|k: int| 0 <= k < pending.len() ==> pending[k] == all[k],
            forall|k: int| 0 <= k < rest.len() ==> rest[k] == all[all.len() - 1 - k],
        decreases pending.len(),
    {
        let entry = pending.pop().unwrap();
        rest.push(entry);
    }
    let mut failure: Option<Error> = None;
    while rest.len() > 0 && failure.is_none()
        invariant
            rest.len() + payload.len() + (if failure is Some { 1int } else { 0int }) == all.len(),
            forall|k: int| 0 <= k < rest.len() ==> rest[k] == all[all.len() - 1 - k],
            forall|k: int| 0 <= k < payload.len() ==> all[k] == Ok::<ContentRef, Error>(payload[k]),
            failure matches Some(error) ==> payload.len() < all.len() && all[payload.len() as int]
                == Err::<ContentRef, Error>(error),
        decreases rest.len(),
    {
        let ghost at = payload.len() as int;
        let entry = rest.pop().unwrap();
        assert(entry == all[at]);
        match entry {
            Ok(stored_ref) => {
                payload.push(stored_ref);
            },
            Err(error) => {
                failure = Some(error);
            },
        }
    }
    match failure {
        Some(error) => {
            proof {
                lemma_first_failure(all, payload.len() as int);
            }
            Err(error)
        },
        None => {
            assert(payload@ =~= stored(all));
            Ok(payload)
        },
    }
}

/// The first failure is the position before which every module was stored.
proof fn lemma_first_failure(entries: Seq<Result<ContentRef, Error>>, at: int)
    requires
        0 <= at < entries.len(),
        entries[at] is Err,
        forall|k: int| 0 <= k < at ==> (#[trigger] entries[k]) is Ok,
    ensures
        first_failure(entries) == at,
    decreases at,
{
    if at > 0 {
        assert(entries[0] is Ok);
        let rest = entries.drop_first();
        assert forall|k: int| 0 <= k < at - 1 implies (#[trigger] rest[k]) is Ok by {
            assert(rest[k] == entries[k + 1]);
        }
        lemma_first_failure(rest, at - 1);
    }
}

/// Creates the metadata of a DAO from the provided details, once every
/// module has been stored or has failed: the root document to store, which
/// refers to every module's node, in the order of the modules. If any
/// module failed there is no document to store, and the error of the first
/// that failed is returned.
pub fn deploy_metadata(title: &str, description: &str, entries: Vec<Result<ContentRef, Error>>) -> (
    document: Result<String, Error>)
    ensures
        document is Ok <==> all_stored(entries@),
        document matches Ok(text) ==> text@ == metadata_json(
            title@,
            description@,
            ids(stored(entries@)),
        ),
        document matches Err(error) ==> {
            &&& 0 <= first_failure(entries@) < entries.len()
            &&& entries[first_failure(entries@)] == Err::<ContentRef, Error>(error)
        },
{
    match join_entries(entries) {
        Ok(payload) => Ok(metadata_document(title, description, &payload)),
        Err(error) => Err(error),
    }
}

/// The root document of a DAO without modules has nothing between the
/// brackets of its payload.
pub proof fn no_modules_no_payload(title: Seq<char>, description: Seq<char>)
    ensures
        metadata_json(title, description, Seq::empty()) == "{\"title\":"@ + json_string(title)
            + ",\"description\":"@ + json_string(description) + ",\"payload\":["@ + "]}"@,
{
    let links = Seq::new(0, |i: int| link_json(Seq::<Seq<char>>::empty()[i]));
    assert(joined(links) =~= Seq::<char>::empty());
    assert(",\"payload\":["@ + joined(links) =~= ",\"payload\":["@);
    let head = "{\"title\":"@ + json_string(title) + ",\"description\":"@ + json_string(
        description,
    );
    assert(head + ",\"payload\":["@ + joined(links) =~= head + ",\"payload\":["@);
}

} // verus!
