use daowiz::net::error::Error;
use daowiz::net::payload::deploy_metadata;
use daowiz::net::payload::frame_link;
use daowiz::net::payload::frame_metadata;
use daowiz::net::payload::frame_module;
use daowiz::net::payload::join_entries;
use daowiz::net::payload::link;
use daowiz::net::payload::metadata_document;
use daowiz::net::payload::module_node;
use daowiz::net::payload::ContentRef;
use std::collections::HashMap;

fn stored(id: &str) -> ContentRef {
    ContentRef { id: id.to_string() }
}

#[test]
fn link_is_an_object_with_one_entry() {
    assert_eq!(link(&stored("QmLoader")), "{\"/\":\"QmLoader\"}");
    assert_eq!(link(&stored("a\"b\\c")), "{\"/\":\"a\\\"b\\\\c\"}");
    assert_eq!(frame_link("\"x\""), "{\"/\":\"x\"}");
}

#[test]
fn module_node_refers_to_loader_and_module() {
    let node = module_node(&stored("QmLoader"), &stored("QmModule"));
    assert_eq!(node, "{\"loader\":[{\"/\":\"QmLoader\"}],\"module\":[{\"/\":\"QmModule\"}]}");
    assert_eq!(frame_module("L", "M"), "{\"loader\":[L],\"module\":[M]}");
}

#[test]
fn metadata_document_lists_the_payload_in_order() {
    let payload = vec![stored("QmA"), stored("QmB"), stored("QmC")];
    let document = metadata_document("Vision DAO", "A DAO", &payload);
    assert_eq!(
        document,
        "{\"title\":\"Vision DAO\",\"description\":\"A DAO\",\"payload\":[{\"/\":\"QmA\"},{\"/\":\"QmB\"},{\"/\":\"QmC\"}]}"
    );
    assert_eq!(
        frame_metadata("T", "D", &vec!["1".to_string(), "2".to_string()]),
        "{\"title\":T,\"description\":D,\"payload\":[1,2]}"
    );
    assert_eq!(
        frame_metadata("T", "D", &vec!["1".to_string()]),
        "{\"title\":T,\"description\":D,\"payload\":[1]}"
    );
}

#[test]
fn metadata_document_escapes_its_texts() {
    let document = metadata_document("say \"hi\"", "line\nbreak \\ tab\t\u{1} \u{e9}", &Vec::new());
    assert_eq!(
        document,
        "{\"title\":\"say \\\"hi\\\"\",\"description\":\"line\\nbreak \\\\ tab\\t\\u0001 \u{e9}\",\"payload\":[]}"
    );
    let value: serde_json::Value = serde_json::from_str(&document).unwrap();
    assert_eq!(value["title"].as_str(), Some("say \"hi\""));
    assert_eq!(value["description"].as_str(), Some("line\nbreak \\ tab\t\u{1} \u{e9}"));
}

#[test]
fn deploy_metadata_without_modules_has_an_empty_payload() {
    let document = deploy_metadata("Vision DAO", "none", Vec::new()).unwrap();
    assert_eq!(document, "{\"title\":\"Vision DAO\",\"description\":\"none\",\"payload\":[]}");
    let value: serde_json::Value = serde_json::from_str(&document).unwrap();
    assert_eq!(value["payload"].as_array().map(|entries| entries.len()), Some(0));
}

#[test]
fn deploy_metadata_fails_with_the_first_failure() {
    let entries = vec![
        Ok(stored("QmA")),
        Err(Error::Ipfs("refused".to_string())),
        Ok(stored("QmC")),
        Err(Error::Io("unreadable".to_string())),
    ];
    assert_eq!(deploy_metadata("T", "D", entries.clone()), Err(Error::Ipfs("refused".to_string())));
    assert_eq!(join_entries(entries), Err(Error::Ipfs("refused".to_string())));
    let last = vec![Ok(stored("QmA")), Err(Error::Serialization("bad".to_string()))];
    assert_eq!(join_entries(last), Err(Error::Serialization("bad".to_string())));
    let first = vec![Err(Error::InvalidInput), Ok(stored("QmA"))];
    assert_eq!(join_entries(first), Err(Error::InvalidInput));
}

#[test]
fn join_entries_keeps_the_order() {
    let entries = vec![Ok(stored("QmA")), Ok(stored("QmB")), Ok(stored("QmC"))];
    assert_eq!(join_entries(entries), Ok(vec![stored("QmA"), stored("QmB"), stored("QmC")]));
    assert_eq!(join_entries(Vec::new()), Ok(Vec::new()));
}

/// A content store in memory: content is stored under a number.
struct Store {
    held: HashMap<String, Vec<u8>>,
}

impl Store {
    fn add(&mut self, content: &[u8]) -> ContentRef {
        let id = format!("Qm{}", self.held.len());
        self.held.insert(id.clone(), content.to_vec());
        ContentRef { id }
    }

    fn document(&self, id: &str) -> serde_json::Value {
        serde_json::from_slice(&self.held[id]).unwrap()
    }
}

#[test]
fn published_metadata_leads_back_to_the_modules() {
    let modules: Vec<(Vec<u8>, Vec<u8>)> = vec![
        (b"load a".to_vec(), vec![0, 97, 115, 109, 1]),
        (b"load b".to_vec(), vec![0, 97, 115, 109, 2]),
        (Vec::new(), vec![0xff]),
    ];
    let mut store = Store { held: HashMap::new() };
    let mut entries = Vec::new();
    for (loader, module) in modules.iter() {
        let loader_ref = store.add(loader);
        let module_ref = store.add(module);
        let node = module_node(&loader_ref, &module_ref);
        entries.push(Ok(store.add(node.as_bytes())));
    }
    let document = deploy_metadata("Vision DAO", "about", entries).unwrap();
    let root = store.add(document.as_bytes());

    let metadata = store.document(&root.id);
    assert_eq!(metadata["title"].as_str(), Some("Vision DAO"));
    assert_eq!(metadata["description"].as_str(), Some("about"));
    let payload = metadata["payload"].as_array().unwrap();
    assert_eq!(payload.len(), modules.len());
    for (entry, (loader, module)) in payload.iter().zip(modules.iter()) {
        let node = store.document(entry["/"].as_str().unwrap());
        let loaders = node["loader"].as_array().unwrap();
        let bodies = node["module"].as_array().unwrap();
        assert_eq!(loaders.len(), 1);
        assert_eq!(bodies.len(), 1);
        assert_eq!(&store.held[loaders[0]["/"].as_str().unwrap()], loader);
        assert_eq!(&store.held[bodies[0]["/"].as_str().unwrap()], module);
    }
}
