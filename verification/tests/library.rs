use sha1::Digest;
use snowtracks::config::Config;
use snowtracks::database::{same_hash, TasksDatabase};
use snowtracks::hash::{
    add_hash_to_task, be_bytes, full_hash, generate_short_hash, hash_input, hash_with_encoding,
};
use snowtracks::paths::{
    config_dir, config_file_path, database_dir, database_dir_action, database_name,
    tasks_file_path, DatabaseDirAction,
};
use snowtracks::task::{Task, TaskSize, TaskStatus, TaskTriage};
use snowtracks::text::{concat_str, hex_lower, str_eq};

fn task(name: &str, hash: Option<&str>) -> Task {
    let mut t = Task::new(name.to_string(), TaskTriage::High, TaskStatus::Todo, TaskSize::M);
    t.hash = hash.map(|h| h.to_string());
    t
}

fn names(db: &TasksDatabase) -> Vec<String> {
    db.tasks.iter().map(|t| t.name.clone()).collect()
}

#[test]
fn level_numbers() {
    assert_eq!(TaskTriage::Low.repr(), 0);
    assert_eq!(TaskTriage::Urgent.repr(), 3);
    assert_eq!(TaskStatus::InProgress.repr(), 1);
    assert_eq!(TaskSize::XXS.repr(), 0);
    assert_eq!(TaskSize::XS.repr(), 1);
    assert_eq!(TaskSize::S.repr(), 3);
    assert_eq!(TaskSize::XXL.repr(), 7);
}

#[test]
fn level_from_number() {
    assert_eq!(TaskTriage::from_repr(2), Some(TaskTriage::High));
    assert_eq!(TaskTriage::from_repr(4), None);
    assert_eq!(TaskStatus::from_repr(2), Some(TaskStatus::Done));
    assert_eq!(TaskStatus::from_repr(-1), None);
    assert_eq!(TaskSize::from_repr(2), None);
    assert_eq!(TaskSize::from_repr(3), Some(TaskSize::S));
    assert_eq!(TaskSize::from_repr(6), Some(TaskSize::XL));
    assert_eq!(TaskSize::from_repr(8), None);
}

#[test]
fn level_number_round_trip() {
    for v in [TaskSize::XXS, TaskSize::XS, TaskSize::S, TaskSize::M, TaskSize::L, TaskSize::XL, TaskSize::XXL] {
        assert_eq!(TaskSize::from_repr(v.repr()), Some(v));
        assert_eq!(TaskSize::parse(v.name()), Some(v));
    }
    for v in [TaskTriage::Low, TaskTriage::Medium, TaskTriage::High, TaskTriage::Urgent] {
        assert_eq!(TaskTriage::from_repr(v.repr()), Some(v));
        assert_eq!(TaskTriage::parse(v.name()), Some(v));
    }
    for v in [TaskStatus::Todo, TaskStatus::InProgress, TaskStatus::Done] {
        assert_eq!(TaskStatus::from_repr(v.repr()), Some(v));
        assert_eq!(TaskStatus::parse(v.name()), Some(v));
    }
}

#[test]
fn level_names() {
    assert_eq!(TaskStatus::InProgress.name(), "InProgress");
    assert_eq!(TaskSize::XXL.name(), "XXL");
    assert_eq!(TaskTriage::Medium.name(), "Medium");
    assert_eq!(TaskStatus::parse("InProgress"), Some(TaskStatus::InProgress));
    assert_eq!(TaskTriage::parse("medium"), None);
    assert_eq!(TaskTriage::parse("urgent"), None);
    assert_eq!(TaskSize::parse("xl"), None);
    assert_eq!(TaskSize::parse("M"), Some(TaskSize::M));
    assert_eq!(TaskSize::parse(""), None);
    assert_eq!(TaskStatus::parse("In Progress"), None);
}

#[test]
fn level_variants_in_order() {
    assert_eq!(TaskTriage::variants(), vec!["Low", "Medium", "High", "Urgent"]);
    assert_eq!(TaskStatus::variants(), vec!["Todo", "InProgress", "Done"]);
    assert_eq!(TaskSize::variants(), vec!["XXS", "XS", "S", "M", "L", "XL", "XXL"]);
}

#[test]
fn picking_by_position() {
    // the i-th name of the list is read back as the level numbered i
    for (i, name) in TaskTriage::variants().iter().enumerate() {
        assert_eq!(TaskTriage::from_repr(i as i32).map(|v| v.name()), Some(*name));
    }
    for (i, name) in TaskStatus::variants().iter().enumerate() {
        assert_eq!(TaskStatus::from_repr(i as i32).map(|v| v.name()), Some(*name));
    }
    // sizes: only the first two positions match the numbers
    assert_eq!(TaskSize::from_repr(0), Some(TaskSize::XXS));
    assert_eq!(TaskSize::from_repr(1), Some(TaskSize::XS));
    assert_eq!(TaskSize::from_repr(2), None);
    assert_eq!(TaskSize::from_repr(4), Some(TaskSize::M));
}

#[test]
fn new_task_has_no_hash() {
    let t = Task::new("write".to_string(), TaskTriage::Low, TaskStatus::Done, TaskSize::XS);
    assert_eq!(t.name, "write");
    assert_eq!(t.triage, TaskTriage::Low);
    assert_eq!(t.status, TaskStatus::Done);
    assert_eq!(t.size, TaskSize::XS);
    assert_eq!(t.hash, None);
}

#[test]
fn new_database_is_empty() {
    let db = TasksDatabase::new("alice".to_string());
    assert_eq!(db.name, "alice");
    assert!(db.tasks.is_empty());
}

#[test]
fn add_task_appends() {
    let mut db = TasksDatabase::new("d".to_string());
    db.add_task(task("a", Some("111111")));
    db.add_task(task("b", None));
    assert_eq!(names(&db), vec!["a", "b"]);
    assert_eq!(db.name, "d");
}

#[test]
fn remove_tasks_with_hash_keeps_others_in_order() {
    let mut db = TasksDatabase::new("d".to_string());
    for (n, h) in [("a", Some("aa")), ("b", Some("bb")), ("c", Some("aa")), ("d", None), ("e", Some("cc"))] {
        db.add_task(task(n, h));
    }
    db.remove_tasks_with_hash(&Some("aa".to_string()));
    assert_eq!(names(&db), vec!["b", "d", "e"]);
    assert!(db.tasks.iter().all(|t| t.hash.as_deref() != Some("aa")));
    // a second time changes nothing
    db.remove_tasks_with_hash(&Some("aa".to_string()));
    assert_eq!(names(&db), vec!["b", "d", "e"]);
    // no hash given: the tasks without a hash go
    db.remove_tasks_with_hash(&None);
    assert_eq!(names(&db), vec!["b", "e"]);
    assert_eq!(db.name, "d");
}

#[test]
fn remove_unknown_hash_changes_nothing() {
    let mut db = TasksDatabase::new("d".to_string());
    db.add_task(task("a", Some("aa")));
    db.remove_tasks_with_hash(&Some("zz".to_string()));
    assert_eq!(names(&db), vec!["a"]);
}

#[test]
fn add_then_remove_gives_back() {
    let mut db = TasksDatabase::new("d".to_string());
    db.add_task(task("a", Some("aa")));
    db.add_task(task("b", Some("bb")));
    db.add_task(task("new", Some("nn")));
    db.remove_tasks_with_hash(&Some("nn".to_string()));
    assert_eq!(names(&db), vec!["a", "b"]);
}

#[test]
fn same_hash_compares_contents() {
    assert!(same_hash(&None, &None));
    assert!(same_hash(&Some("x".to_string()), &Some("x".to_string())));
    assert!(!same_hash(&Some("x".to_string()), &Some("y".to_string())));
    assert!(!same_hash(&Some("x".to_string()), &None));
}

#[test]
fn config_single_database() {
    let c = Config::with_single_database("/data/db".to_string());
    assert_eq!(c.databases, vec!["/data/db".to_string()]);
    assert!(c.contains_database("/data/db"));
    assert!(!c.contains_database("/data"));
}

#[test]
fn config_ensure_database() {
    let mut c = Config::with_single_database("a".to_string());
    assert!(c.ensure_database("b".to_string()));
    assert_eq!(c.databases, vec!["a", "b"]);
    assert!(!c.ensure_database("b".to_string()));
    assert!(!c.ensure_database("a".to_string()));
    assert_eq!(c.databases, vec!["a", "b"]);
}

#[test]
fn config_remove_database() {
    let mut c = Config { databases: vec!["a".to_string(), "b".to_string(), "a".to_string(), "c".to_string()] };
    c.remove_database("a");
    assert_eq!(c.databases, vec!["b", "c"]);
    assert!(!c.contains_database("a"));
    c.remove_database("zz");
    assert_eq!(c.databases, vec!["b", "c"]);
}

#[test]
fn config_remove_after_ensure() {
    let mut c = Config { databases: vec!["x".to_string(), "y".to_string()] };
    c.ensure_database("z".to_string());
    c.remove_database("z");
    assert_eq!(c.databases, vec!["x", "y"]);
}

#[test]
fn config_task_files_and_first() {
    let c = Config { databases: vec!["/d1".to_string(), "d2".to_string()] };
    assert_eq!(c.task_files(), vec!["/d1/tasks.json", "d2/tasks.json"]);
    assert_eq!(c.first_database().map(|s| s.as_str()), Some("/d1"));
    let empty = Config { databases: vec![] };
    assert_eq!(empty.first_database(), None);
    assert!(empty.task_files().is_empty());
}

#[test]
fn paths() {
    assert_eq!(tasks_file_path("/home/u/.local/share/snowtracks"), "/home/u/.local/share/snowtracks/tasks.json");
    assert_eq!(config_file_path("/home/u/.config"), "/home/u/.config/snowtracks/snowtracks.toml");
    assert_eq!(config_dir(Some("/home/u/.config")), "/home/u/.config/snowtracks");
    assert_eq!(config_dir(None), "./snowtracks-cfg");
}

#[test]
fn database_defaults() {
    assert_eq!(database_dir(Some("/tmp/db".to_string()), Some("/data".to_string())), "/tmp/db");
    assert_eq!(database_dir(None, Some("/data".to_string())), "/data");
    assert_eq!(database_dir(None, None), "./snowtracks-db");
    assert_eq!(database_name(Some("my_db".to_string()), Some("alice".to_string())), "my_db");
    assert_eq!(database_name(None, Some("alice".to_string())), "alice_db");
    assert_eq!(database_name(None, None), "unknown_db");
}

#[test]
fn database_dir_actions() {
    assert_eq!(database_dir_action(false, false), DatabaseDirAction::Create);
    assert_eq!(database_dir_action(false, true), DatabaseDirAction::Create);
    assert_eq!(database_dir_action(true, true), DatabaseDirAction::Reuse);
    assert_eq!(database_dir_action(true, false), DatabaseDirAction::Refuse);
}

#[test]
fn task_encoding_long_name_and_hash() {
    // a name longer than 250 bytes gets the 251 marker and a two-byte length
    let name = "a".repeat(300);
    let encoded = bincode_next::serde::encode_to_vec(
        (name.as_str(), 3i32, 1i32, 7i32, &Some("abc".to_string())),
        bincode_next::config::standard(),
    )
    .unwrap();
    assert_eq!(&encoded[..3], &[251, 44, 1]);
    assert_eq!(&encoded[303..], &[6, 2, 14, 1, 3, b'a', b'b', b'c']);
}

#[test]
fn text_helpers() {
    assert!(str_eq("abc", "abc"));
    assert!(!str_eq("abc", "abd"));
    assert_eq!(concat_str("ab", "cd"), "abcd");
    assert_eq!(hex_lower(&[0xab, 0x01, 0x00, 0xff]), "ab0100ff");
    assert_eq!(hex_lower(&[]), "");
}

#[test]
fn big_endian_time() {
    let b = be_bytes(0x0102);
    assert_eq!(b.len(), 16);
    assert_eq!(&b[..14], &[0u8; 14]);
    assert_eq!(b[14], 1);
    assert_eq!(b[15], 2);
    assert_eq!(be_bytes(u128::MAX), vec![0xffu8; 16]);
    assert_eq!(be_bytes(123456789u128).as_slice(), &123456789u128.to_be_bytes());
}

#[test]
fn hashed_bytes() {
    let input = hash_input("{}", &[7, 8], 1);
    let mut expected = b"{}".to_vec();
    expected.push(0);
    expected.extend_from_slice(&[7, 8]);
    expected.push(0);
    expected.extend_from_slice(&1u128.to_be_bytes());
    assert_eq!(input, expected);
}

fn sha1_hex(data: &[u8]) -> String {
    sha1::Sha1::digest(data).iter().map(|b| format!("{:02x}", b)).collect()
}

#[test]
fn hash_with_encoding_is_sha1_hex() {
    let h = hash_with_encoding("db", &[1, 2, 3], 42);
    assert_eq!(h, sha1_hex(&hash_input("db", &[1, 2, 3], 42)));
    assert_eq!(h.len(), 40);
    // the digest of the input, not the input itself
    assert_ne!(h, hex_lower(&hash_input("db", &[1, 2, 3], 42)));
}

fn expected_full_hash(db: &str, t: &Task, micros: u128) -> String {
    let encoded = bincode_next::serde::encode_to_vec(
        (t.name.as_str(), t.triage.repr(), t.status.repr(), t.size.repr(), &t.hash),
        bincode_next::config::standard(),
    )
    .unwrap();
    let mut data = db.as_bytes().to_vec();
    data.push(0);
    data.extend_from_slice(&encoded);
    data.push(0);
    data.extend_from_slice(&micros.to_be_bytes());
    sha1_hex(&data)
}

#[test]
fn full_hash_of_task() {
    let t = task("write tests", None);
    let h = full_hash("{\"name\":\"d\",\"tasks\":[]}", &t, 1_700_000_000_000_000);
    assert_eq!(h, expected_full_hash("{\"name\":\"d\",\"tasks\":[]}", &t, 1_700_000_000_000_000));
    // the task's own bytes count: another name gives another hash
    let other = task("write more tests", None);
    assert_ne!(h, full_hash("{\"name\":\"d\",\"tasks\":[]}", &other, 1_700_000_000_000_000));
    // so does the time
    assert_ne!(h, full_hash("{\"name\":\"d\",\"tasks\":[]}", &t, 1_700_000_000_000_001));
}

#[test]
fn task_encoding_matches_struct_encoding() {
    // the fields of a task, in order: name, triage, status, size, hash
    let encoded = bincode_next::serde::encode_to_vec(
        ("ab", 2i32, 0i32, 4i32, &None::<String>),
        bincode_next::config::standard(),
    )
    .unwrap();
    assert_eq!(encoded, vec![2, b'a', b'b', 4, 0, 8, 0]);
}

#[test]
fn short_hash_is_prefix_of_full_hash() {
    let db = "{\"name\":\"d\",\"tasks\":[]}";
    let mut a = task("t", None);
    let mut b = task("t", None);
    add_hash_to_task(db, &mut a, 99);
    generate_short_hash(db, &mut b, 99);
    let full = a.hash.unwrap();
    let short = b.hash.unwrap();
    assert_eq!(full.len(), 40);
    assert_eq!(short.len(), 6);
    assert_eq!(&full[..6], short);
    assert_eq!(full, expected_full_hash(db, &task("t", None), 99));
    assert!(short.chars().all(|c| c.is_ascii_digit() || ('a'..='f').contains(&c)));
    assert_eq!(b.name, "t");
    assert_eq!(b.triage, TaskTriage::High);
}
