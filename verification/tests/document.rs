use std::collections::HashMap;
use web_note::{
    load_begin, load_finish, save_begin, save_finish, save_with_choice, Data, Encodes, LoadStep,
    PathCell, PathStyle, SaveStep, Settings,
};

const UTF8: Settings = Settings { encoding: Encodes::Utf8, style: PathStyle::Posix };
const GBK: Settings = Settings { encoding: Encodes::Gbk, style: PathStyle::Posix };
const UTF8_ON_WINDOWS: Settings = Settings { encoding: Encodes::Utf8, style: PathStyle::Windows };

fn document(content: &str, title: &str, saved: bool) -> Data {
    Data { content: content.to_string(), title: title.to_string(), saved }
}

fn read_file(disk: &HashMap<String, Vec<u8>>, path: &str) -> Result<Vec<u8>, String> {
    match disk.get(path) {
        Some(bytes) => Ok(bytes.clone()),
        None => Err("No such file or directory (os error 2)".to_string()),
    }
}

fn load(cell: &PathCell, disk: &HashMap<String, Vec<u8>>, settings: Settings) -> Data {
    match load_begin(cell) {
        LoadStep::Respond(data) => data,
        LoadStep::Read { path } => load_finish(&path, read_file(disk, &path), settings),
    }
}

fn run_step(
    step: SaveStep,
    payload: &Data,
    disk: &mut HashMap<String, Vec<u8>>,
    settings: Settings,
) -> Data {
    match step {
        SaveStep::Write { path, bytes } => {
            disk.insert(path.clone(), bytes);
            save_finish(&path, payload, true, settings)
        }
        SaveStep::Respond(data) => data,
        SaveStep::ChoosePath => panic!("the path was decided already"),
    }
}

fn save(
    cell: &mut PathCell,
    disk: &mut HashMap<String, Vec<u8>>,
    payload: &Data,
    pick: Option<&str>,
    settings: Settings,
) -> Data {
    match save_begin(cell, payload, settings) {
        SaveStep::ChoosePath => {
            let chosen = save_with_choice(cell, pick.map(|p| p.to_string()), payload, settings);
            run_step(chosen.step, payload, disk, settings)
        }
        step => run_step(step, payload, disk, settings),
    }
}

#[test]
fn every_load_before_a_path_is_decided_gives_the_untitled_document() {
    let cell = PathCell::new();
    let disk = HashMap::new();
    for _ in 0..5 {
        assert_eq!(load_begin(&cell), LoadStep::Respond(document("", "Untitled", false)));
        assert_eq!(load(&cell, &disk, UTF8), document("", "Untitled", false));
        assert_eq!(load(&cell, &disk, GBK), document("", "Untitled", false));
    }
    assert!(!cell.is_set());
}

#[test]
fn a_load_with_a_path_asks_for_the_file() {
    let cell = PathCell::from_startup(Some("/tmp/note.txt".to_string()));
    assert_eq!(load_begin(&cell), LoadStep::Read { path: "/tmp/note.txt".to_string() });
}

#[test]
fn a_load_answers_with_the_decoded_file() {
    assert_eq!(
        load_finish("/tmp/note.txt", Ok(b"hello".to_vec()), UTF8),
        document("hello", "note.txt", true)
    );
    assert_eq!(
        load_finish("notes/\u{65e5}\u{8bb0}.txt", Ok(vec![0xC4, 0xE3, 0xBA, 0xC3]), GBK),
        document("\u{4f60}\u{597d}", "\u{65e5}\u{8bb0}.txt", true)
    );
    assert_eq!(load_finish("/", Ok(Vec::new()), UTF8), document("", "/", true));
}

#[test]
fn a_failed_read_is_answered_as_a_document() {
    assert_eq!(
        load_finish("/tmp/note.txt", Err("Permission denied (os error 13)".to_string()), UTF8),
        document("Error reading file: Permission denied (os error 13)", "Error", false)
    );
}

#[test]
fn a_failed_decode_is_answered_as_a_document_and_not_as_empty_content() {
    let data = load_finish("/tmp/note.txt", Ok(vec![0x68, 0xFF]), UTF8);
    assert_eq!(
        data,
        document(
            "Error reading file: Failed to decode file at /tmp/note.txt using Utf8",
            "Error",
            false
        )
    );
    let data = load_finish("old.txt", Ok(vec![0xC4]), GBK);
    assert_eq!(
        data,
        document("Error reading file: Failed to decode file at old.txt using Gbk", "Error", false)
    );
}

#[test]
fn a_save_with_a_path_plans_the_write() {
    let cell = PathCell::from_startup(Some("/tmp/note.txt".to_string()));
    let payload = document("hello", "whatever", true);
    assert_eq!(
        save_begin(&cell, &payload, UTF8),
        SaveStep::Write { path: "/tmp/note.txt".to_string(), bytes: b"hello".to_vec() }
    );
    let payload = document("\u{4f60}\u{597d}", "", false);
    assert_eq!(
        save_begin(&cell, &payload, GBK),
        SaveStep::Write { path: "/tmp/note.txt".to_string(), bytes: vec![0xC4, 0xE3, 0xBA, 0xC3] }
    );
}

#[test]
fn a_save_without_a_path_asks_for_one() {
    let cell = PathCell::new();
    let payload = document("hello", "Untitled", false);
    assert_eq!(save_begin(&cell, &payload, UTF8), SaveStep::ChoosePath);
}

#[test]
fn a_save_ends_with_the_outcome_of_the_write() {
    let payload = document("hello", "ignored", false);
    assert_eq!(
        save_finish("/tmp/note.txt", &payload, true, UTF8),
        document("hello", "note.txt", true)
    );
    assert_eq!(
        save_finish("/tmp/note.txt", &payload, false, UTF8),
        document("hello", "note.txt", false)
    );
    assert_eq!(save_finish("/", &payload, true, UTF8), document("hello", "Untitled", true));
}

#[test]
fn a_picked_path_is_adopted_and_written_to() {
    let mut cell = PathCell::new();
    let payload = document("hello", "Untitled", false);
    let chosen =
        save_with_choice(&mut cell, Some("/home/me/a.txt".to_string()), &payload, UTF8);
    assert_eq!(
        chosen.step,
        SaveStep::Write { path: "/home/me/a.txt".to_string(), bytes: b"hello".to_vec() }
    );
    assert_eq!(chosen.discarded, None);
    assert_eq!(cell.get(), Some(&"/home/me/a.txt".to_string()));
}

#[test]
fn a_cancelled_dialog_changes_nothing() {
    let mut cell = PathCell::new();
    let mut disk = HashMap::new();
    let payload = document("draft", "My title", true);
    let chosen = save_with_choice(&mut cell, None, &payload, UTF8);
    assert_eq!(chosen.step, SaveStep::Respond(document("draft", "My title", false)));
    assert_eq!(chosen.discarded, None);
    assert!(!cell.is_set());
    assert_eq!(save(&mut cell, &mut disk, &payload, None, UTF8), document("draft", "My title", false));
    assert!(!cell.is_set());
    assert!(disk.is_empty());
    assert_eq!(load(&cell, &disk, UTF8), document("", "Untitled", false));
}

#[test]
fn racing_saves_agree_on_the_first_path() {
    let mut cell = PathCell::new();
    let mut disk = HashMap::new();
    let picks = ["/a/one.txt", "/b/two.txt", "/c/three.txt", "/d/four.txt"];
    let payloads: Vec<Data> =
        picks.iter().map(|p| document(&format!("content for {}", p), "Untitled", false)).collect();
    for payload in &payloads {
        assert_eq!(save_begin(&cell, payload, UTF8), SaveStep::ChoosePath);
    }
    let mut adopted = 0;
    for (i, pick) in picks.iter().enumerate() {
        let chosen =
            save_with_choice(&mut cell, Some(pick.to_string()), &payloads[i], UTF8);
        if chosen.discarded.is_none() {
            adopted += 1;
        } else {
            assert_eq!(chosen.discarded, Some(pick.to_string()));
        }
        assert_eq!(cell.get(), Some(&"/a/one.txt".to_string()));
        let response = run_step(chosen.step, &payloads[i], &mut disk, UTF8);
        assert_eq!(response.title, "one.txt");
        assert!(response.saved);
        assert_eq!(response.content, payloads[i].content);
    }
    assert_eq!(adopted, 1);
    assert_eq!(disk.len(), 1);
    assert_eq!(disk.get("/a/one.txt"), Some(&b"content for /d/four.txt".to_vec()));
}

#[test]
fn unencodable_content_leaves_the_file_as_it_was() {
    let mut cell = PathCell::from_startup(Some("/tmp/note.txt".to_string()));
    let mut disk = HashMap::new();
    disk.insert("/tmp/note.txt".to_string(), vec![0xC4, 0xE3]);
    let payload = document("smile \u{1f600}", "note.txt", true);
    assert_eq!(
        save_begin(&cell, &payload, GBK),
        SaveStep::Respond(document("smile \u{1f600}", "note.txt", false))
    );
    let response = save(&mut cell, &mut disk, &payload, None, GBK);
    assert_eq!(response, document("smile \u{1f600}", "note.txt", false));
    assert_eq!(disk.get("/tmp/note.txt"), Some(&vec![0xC4, 0xE3]));
    assert_eq!(load(&cell, &disk, GBK), document("\u{4f60}", "note.txt", true));
}

#[test]
fn unencodable_content_with_a_fresh_pick_still_decides_the_path() {
    let mut cell = PathCell::new();
    let payload = document("\u{1f600}", "Untitled", false);
    let chosen = save_with_choice(&mut cell, Some("/tmp/x.txt".to_string()), &payload, GBK);
    assert_eq!(chosen.step, SaveStep::Respond(document("\u{1f600}", "x.txt", false)));
    assert_eq!(cell.get(), Some(&"/tmp/x.txt".to_string()));
}

#[test]
fn a_load_after_a_save_gives_the_saved_content() {
    for (settings, content) in [
        (UTF8, "hello"),
        (UTF8, "h\u{e9}llo \u{4f60}\u{597d} \u{1f600}\n"),
        (UTF8, ""),
        (UTF8, "\u{feff}starts with U+FEFF"),
        (UTF8, "\u{feff}"),
        (GBK, "plain ascii"),
        (GBK, "\u{4f60}\u{597d}"),
        (GBK, "\u{9518}\u{5938}"),
    ] {
        let mut cell = PathCell::new();
        let mut disk = HashMap::new();
        let payload = document(content, "Untitled", false);
        let saved = save(&mut cell, &mut disk, &payload, Some("/tmp/round.txt"), settings);
        assert_eq!(saved, document(content, "round.txt", true));
        assert_eq!(load(&cell, &disk, settings), document(content, "round.txt", true));
    }
}

#[test]
fn a_missing_file_is_reported_then_created_by_a_save_and_then_loaded() {
    let mut cell = PathCell::from_startup(Some("/tmp/note.txt".to_string()));
    let mut disk: HashMap<String, Vec<u8>> = HashMap::new();

    let first = load(&cell, &disk, UTF8);
    assert_eq!(
        first,
        document("Error reading file: No such file or directory (os error 2)", "Error", false)
    );

    let payload = document("hello", "", false);
    let saved = save(&mut cell, &mut disk, &payload, None, UTF8);
    assert_eq!(disk.get("/tmp/note.txt"), Some(&b"hello".to_vec()));
    assert_eq!(saved, document("hello", "note.txt", true));

    let second = load(&cell, &disk, UTF8);
    assert_eq!(second, document("hello", "note.txt", true));
    assert_eq!(cell.get(), Some(&"/tmp/note.txt".to_string()));
}

#[test]
fn a_picked_windows_path_is_titled_by_its_file_name() {
    let mut cell = PathCell::new();
    let mut disk = HashMap::new();
    let payload = document("hello", "Untitled", false);
    let pick = "C:\\Users\\me\\note.txt";
    let saved = save(&mut cell, &mut disk, &payload, Some(pick), UTF8_ON_WINDOWS);
    assert_eq!(saved, document("hello", "note.txt", true));
    assert_eq!(disk.get(pick), Some(&b"hello".to_vec()));
    assert_eq!(load(&cell, &disk, UTF8_ON_WINDOWS), document("hello", "note.txt", true));
    assert_eq!(load(&cell, &disk, UTF8), document("hello", pick, true));
}
