use keyvaluestore::handlers::{ReadResponse, RequestError};
use keyvaluestore::shared::SharedStore;
use std::sync::Arc;

fn shared(tracks_modified: bool) -> SharedStore {
    SharedStore::new("r".to_string(), "w".to_string(), tracks_modified)
}

#[test]
fn shared_store_serves_the_concrete_scenario() {
    let s = shared(true);
    assert_eq!(s.write("foo".to_string(), Some("w"), "bar".to_string()), Ok(()));
    assert_eq!(s.read("foo", Some("r")).unwrap().body, "bar");
    assert_eq!(s.read("foo", Some("wrong")), Err(RequestError::Unauthorized));
    assert_eq!(s.read("missing", Some("r")), Err(RequestError::NoContent));
    assert_eq!(
        s.write("foo".to_string(), Some("r"), "other".to_string()),
        Err(RequestError::Unauthorized)
    );
    assert_eq!(s.read("foo", Some("r")).unwrap().body, "bar");
}

#[test]
fn shared_store_refuses_requests_without_token() {
    let s = shared(false);
    assert_eq!(s.write("k".to_string(), None, "v".to_string()), Err(RequestError::Unauthorized));
    assert_eq!(s.read("k", None), Err(RequestError::Unauthorized));
    assert_eq!(s.read("k", Some("r")), Err(RequestError::NoContent));
}

#[test]
fn shared_store_overwrites() {
    let s = shared(false);
    s.write("k".to_string(), Some("w"), "v1".to_string()).unwrap();
    s.write("k".to_string(), Some("w"), "v2".to_string()).unwrap();
    assert_eq!(
        s.read("k", Some("r")),
        Ok(ReadResponse { body: "v2".to_string(), last_modified: None })
    );
}

#[test]
fn shared_store_releases_its_lock_after_every_request() {
    let s = shared(true);
    for i in 0..100u32 {
        assert!(s.write("k".to_string(), Some("w"), i.to_string()).is_ok());
        assert!(s.write("k".to_string(), Some("bad"), i.to_string()).is_err());
        assert_eq!(s.read("k", Some("r")).unwrap().body, i.to_string());
        assert!(s.read("k", Some("bad")).is_err());
        assert!(s.read("none", Some("r")).is_err());
    }
}

#[test]
fn shared_store_stamps_writes() {
    let s = shared(true);
    let before = std::time::SystemTime::now();
    s.write("k".to_string(), Some("w"), "v".to_string()).unwrap();
    let after = std::time::SystemTime::now();
    let text = s.read("k", Some("r")).unwrap().last_modified.unwrap();
    let shown = httpdate::parse_http_date(&text).unwrap();
    assert!(shown + std::time::Duration::from_secs(1) > before);
    assert!(shown <= after);
}

fn runtime() -> tokio::runtime::Runtime {
    tokio::runtime::Builder::new_multi_thread().worker_threads(4).build().unwrap()
}

#[test]
fn concurrent_writers_leave_one_whole_value() {
    let s = Arc::new(shared(true));
    let values: Vec<String> = (0..8u32).map(|i| format!("{}", i).repeat(1000)).collect();
    let rt = runtime();
    let mut writers = Vec::new();
    for value in values.iter() {
        let s = Arc::clone(&s);
        let value = value.clone();
        writers.push(rt.spawn_blocking(move || {
            for _ in 0..50 {
                assert_eq!(s.write("k".to_string(), Some("w"), value.clone()), Ok(()));
            }
        }));
    }
    for _ in 0..50 {
        match s.read("k", Some("r")) {
            Ok(response) => assert!(values.contains(&response.body)),
            Err(error) => assert_eq!(error, RequestError::NoContent),
        }
    }
    for writer in writers {
        rt.block_on(writer).unwrap();
    }
    let last = s.read("k", Some("r")).unwrap();
    assert!(values.contains(&last.body));
    assert!(last.last_modified.is_some());
}

#[test]
fn concurrent_writers_to_different_keys_all_land() {
    let s = Arc::new(shared(false));
    let rt = runtime();
    let mut writers = Vec::new();
    for i in 0..8u32 {
        let s = Arc::clone(&s);
        writers.push(rt.spawn_blocking(move || {
            for j in 0..50u32 {
                s.write(format!("k{}", i), Some("w"), format!("{}-{}", i, j)).unwrap();
            }
        }));
    }
    for writer in writers {
        rt.block_on(writer).unwrap();
    }
    for i in 0..8u32 {
        assert_eq!(s.read(&format!("k{}", i), Some("r")).unwrap().body, format!("{}-49", i));
    }
}
