//! The load and save operations of the one document, as decisions.
//!
//! Each operation is cut where it has to wait for the outside world: for a
//! file to be read, for the user to pick a path, for a file to be written.
//! A step takes what the world answered and says what to do next. The
//! caller runs the effects and must not hold the cell's lock while it waits.

use vstd::prelude::*;
use vstd::string::*;
use vstd::utf8::encode_utf8;
use crate::codec::{
    codec_limit, decode_content, decode_result, encode_content, encode_result, CodecError, Encodes,
};
use crate::codec::{is_stated_text, lemma_stored_text_reads_back, lemma_utf8_is_lossless};
use crate::path_cell::{lemma_first_writer_wins, offer, offer_all, PathCell};
use crate::title::{
    load_title, save_title, title_after_load, title_after_save, untitled, PathStyle,
};

verus! {

/// What is fixed when the service starts and holds for every load and save.
#[derive(Debug, Clone, Copy, PartialEq, Eq, Structural)]
pub struct Settings {
    /// The encoding every read and every write goes through.
    pub encoding: Encodes,
    /// How paths are written on this machine.
    pub style: PathStyle,
}

/// The document as the editor and the service exchange it.
#[derive(Debug, Clone, PartialEq, Eq)]
pub struct Data {
    /// The text.
    pub content: String,
    /// The name the document is shown under.
    pub title: String,
    /// Whether the text is what the file holds.
    pub saved: bool,
}

/// A document, as values.
pub struct DataView {
    pub content: Seq<char>,
    pub title: Seq<char>,
    pub saved: bool,
}

impl View for Data {
    type V = DataView;

    open spec fn view(&self) -> DataView {
        DataView { content: self.content@, title: self.title@, saved: self.saved }
    }
}

/// What a load does next.
#[derive(Debug, PartialEq, Eq)]
pub enum LoadStep {
    /// Answer with this document.
    Respond(Data),
    /// Read the file at `path` and go on with `load_finish`.
    Read { path: String },
}

/// A load's next step, as values.
pub enum LoadStepView {
    Respond(DataView),
    Read { path: Seq<char> },
}

impl View for LoadStep {
    type V = LoadStepView;

    open spec fn view(&self) -> LoadStepView {
        match self {
            LoadStep::Respond(data) => LoadStepView::Respond(data@),
            LoadStep::Read { path } => LoadStepView::Read { path: path@ },
        }
    }
}

/// What a save does next.
#[derive(Debug, PartialEq, Eq)]
pub enum SaveStep {
    /// No path is decided yet: ask the user for one and go on with
    /// `save_with_choice`.
    ChoosePath,
    /// Replace the file at `path` with `bytes` and go on with `save_finish`.
    Write { path: String, bytes: Vec<u8> },
    /// Write nothing and answer with this document.
    Respond(Data),
}

/// A save's next step, as values.
pub enum SaveStepView {
    ChoosePath,
    Write { path: Seq<char>, bytes: Seq<u8> },
    Respond(DataView),
}

impl View for SaveStep {
    type V = SaveStepView;

    open spec fn view(&self) -> SaveStepView {
        match self {
            SaveStep::ChoosePath => SaveStepView::ChoosePath,
            SaveStep::Write { path, bytes } => SaveStepView::Write { path: path@, bytes: bytes@ },
            SaveStep::Respond(data) => SaveStepView::Respond(data@),
        }
    }
}

/// How a save goes on once the user has answered the path dialog.
#[derive(Debug, PartialEq, Eq)]
pub struct Chosen {
    /// The next step.
    pub step: SaveStep,
    /// The path the user picked, if another save had decided the path in
    /// the meantime and the pick was dropped. Worth a line in the log.
    pub discarded: Option<String>,
}

/// A save's continuation, as values.
pub struct ChosenView {
    pub step: SaveStepView,
    pub discarded: Option<Seq<char>>,
}

impl View for Chosen {
    type V = ChosenView;

    open spec fn view(&self) -> ChosenView {
        ChosenView {
            step: self.step@,
            discarded: match self.discarded {
                Some(p) => Some(p@),
                None => None,
            },
        }
    }
}

/// The name `encoding` goes by in messages.
pub open spec fn encoding_label(encoding: Encodes) -> Seq<char> {
    match encoding {
        Encodes::Utf8 => "Utf8"@,
        Encodes::Gbk => "Gbk"@,
    }
}

/// The answer to a load while no path is decided.
pub open spec fn untitled_response() -> DataView {
    DataView { content: Seq::empty(), title: untitled(), saved: false }
}

/// The answer to a load that failed, with the reason as its content.
pub open spec fn error_response(reason: Seq<char>) -> DataView {
    DataView { content: "Error reading file: "@ + reason, title: "Error"@, saved: false }
}

/// Why the bytes read from `path` could not be turned into text.
pub open spec fn decode_failure(path: Seq<char>, encoding: Encodes, error: CodecError) -> Seq<
    char,
> {
    match error {
        CodecError::TooLarge => "File at "@ + path + " is too large to decode"@,
        _ => "Failed to decode file at "@ + path + " using "@ + encoding_label(encoding),
    }
}

/// The answer to a load from `path`, given what reading the file gave: its
/// bytes, or the reason it could not be read.
pub open spec fn load_response(
    path: Seq<char>,
    read: Result<Seq<u8>, Seq<char>>,
    settings: Settings,
) -> DataView {
    match read {
        Err(reason) => error_response(reason),
        Ok(bytes) => match decode_result(settings.encoding, bytes) {
            Ok(text) => DataView {
                content: text,
                title: load_title(settings.style, path),
                saved: true,
            },
            Err(error) => error_response(decode_failure(path, settings.encoding, error)),
        },
    }
}

/// A load's first step for a cell.
pub open spec fn load_plan(cell: Option<Seq<char>>) -> LoadStepView {
    match cell {
        None => LoadStepView::Respond(untitled_response()),
        Some(path) => LoadStepView::Read { path },
    }
}

/// The answer to a save to `path`, given whether the file was written.
pub open spec fn save_response(
    path: Seq<char>,
    content: Seq<char>,
    written: bool,
    style: PathStyle,
) -> DataView {
    DataView { content, title: save_title(style, path), saved: written }
}

/// A save's step once its path is known: write the encoded content, or, if
/// the content cannot be encoded, write nothing and answer unsaved.
pub open spec fn save_plan(path: Seq<char>, content: Seq<char>, settings: Settings) -> SaveStepView {
    match encode_result(settings.encoding, content) {
        Ok(bytes) => SaveStepView::Write { path, bytes },
        Err(_) => SaveStepView::Respond(save_response(path, content, false, settings.style)),
    }
}

/// A save's first step for a cell.
pub open spec fn save_start(
    cell: Option<Seq<char>>,
    content: Seq<char>,
    settings: Settings,
) -> SaveStepView {
    match cell {
        Some(path) => save_plan(path, content, settings),
        None => SaveStepView::ChoosePath,
    }
}

/// A save's continuation after the dialog. A cancelled dialog ends the save
/// with the document as it came in, unsaved. A pick is offered to the cell,
/// and the save goes on with the path the cell then holds.
pub open spec fn save_choice(
    cell: Option<Seq<char>>,
    choice: Option<Seq<char>>,
    payload: DataView,
    settings: Settings,
) -> ChosenView {
    match choice {
        None => ChosenView {
            step: SaveStepView::Respond(
                DataView { content: payload.content, title: payload.title, saved: false },
            ),
            discarded: None,
        },
        Some(pick) => ChosenView {
            step: save_plan(offer(cell, pick)->Some_0, payload.content, settings),
            discarded: if cell is Some {
                Some(pick)
            } else {
                None
            },
        },
    }
}

/// The cell after the dialog was answered with `choice`.
pub open spec fn cell_after_choice(
    cell: Option<Seq<char>>,
    choice: Option<Seq<char>>,
) -> Option<Seq<char>> {
    match choice {
        None => cell,
        Some(pick) => offer(cell, pick),
    }
}

/// The name of an encoding, for messages.
fn label_of(encoding: Encodes) -> (label: &'static str)
    ensures
        label@ == encoding_label(encoding),
{
    match encoding {
        Encodes::Utf8 => "Utf8",
        Encodes::Gbk => "Gbk",
    }
}

/// The document that reports a failed load.
fn error_document(reason: &str) -> (data: Data)
    ensures
        data@ == error_response(reason@),
{
    Data {
        content: String::from_str("Error reading file: ").concat(reason),
        title: String::from_str("Error"),
        saved: false,
    }
}

/// The sentence that says why decoding failed.
fn describe_decode_failure(path: &str, encoding: Encodes, error: CodecError) -> (reason: String)
    ensures
        reason@ == decode_failure(path@, encoding, error),
{
    match error {
        CodecError::TooLarge => String::from_str("File at ").concat(path).concat(
            " is too large to decode",
        ),
        _ => String::from_str("Failed to decode file at ").concat(path).concat(" using ").concat(
            label_of(encoding),
        ),
    }
}

/// Starts a load: with no path decided the answer is the empty, untitled,
/// unsaved document; otherwise the file at the path is to be read.
pub fn load_begin(cell: &PathCell) -> (step: LoadStep)
    ensures
        step@ == load_plan(cell@),
        cell@ is None ==> step@ == LoadStepView::Respond(untitled_response()),
{
    match cell.get() {
        None => LoadStep::Respond(
            Data { content: String::new(), title: String::from_str("Untitled"), saved: false },
        ),
        Some(path) => LoadStep::Read { path: path.clone() },
    }
}

/// Ends a load from `path` with what reading the file gave: its bytes, or
/// the reason it could not be read. A failure to read or to decode is
/// answered as a document that describes it, never as empty content.
pub fn load_finish(path: &str, read: Result<Vec<u8>, String>, settings: Settings) -> (data: Data)
    ensures
        data@ == load_response(
            path@,
            match read {
                Ok(bytes) => Ok(bytes@),
                Err(reason) => Err(reason@),
            },
            settings,
        ),
{
    match read {
        Err(reason) => error_document(reason.as_str()),
        Ok(bytes) => match decode_content(bytes.as_slice(), settings.encoding) {
            Ok(text) => Data {
                content: text,
                title: title_after_load(path, settings.style),
                saved: true,
            },
            Err(error) => {
                let reason = describe_decode_failure(path, settings.encoding, error);
                error_document(reason.as_str())
            },
        },
    }
}

/// Plans the write of `content` to `path`.
fn plan_save(path: String, content: &String, settings: Settings) -> (step: SaveStep)
    ensures
        step@ == save_plan(path@, content@, settings),
{
    match encode_content(content.as_str(), settings.encoding) {
        Ok(bytes) => SaveStep::Write { path, bytes },
        Err(_) => SaveStep::Respond(
            Data {
                content: content.clone(),
                title: title_after_save(path.as_str(), settings.style),
                saved: false,
            },
        ),
    }
}

/// Starts a save: with a path decided the content is encoded for it;
/// otherwise the user has to be asked for one.
pub fn save_begin(cell: &PathCell, payload: &Data, settings: Settings) -> (step: SaveStep)
    ensures
        step@ == save_start(cell@, payload.content@, settings),
{
    match cell.get() {
        Some(path) => plan_save(path.clone(), &payload.content, settings),
        None => SaveStep::ChoosePath,
    }
}

/// Goes on with a save after the path dialog. `choice` is the path the user
/// picked, or `None` if the dialog was cancelled.
pub fn save_with_choice(
    cell: &mut PathCell,
    choice: Option<String>,
    payload: &Data,
    settings: Settings,
) -> (chosen: Chosen)
    ensures
        final(cell)@ == cell_after_choice(
            old(cell)@,
            match choice {
                Some(pick) => Some(pick@),
                None => None,
            },
        ),
        chosen@ == save_choice(
            old(cell)@,
            match choice {
                Some(pick) => Some(pick@),
                None => None,
            },
            payload@,
            settings,
        ),
        old(cell)@ is Some ==> final(cell)@ == old(cell)@,
        choice is None ==> final(cell)@ == old(cell)@,
{
    match choice {
        None => Chosen {
            step: SaveStep::Respond(
                Data {
                    content: payload.content.clone(),
                    title: payload.title.clone(),
                    saved: false,
                },
            ),
            discarded: None,
        },
        Some(pick) => {
            let lost = cell.is_set();
            let path = cell.get_or_init(pick.clone());
            let step = plan_save(path, &payload.content, settings);
            Chosen {
                step,
                discarded: if lost {
                    Some(pick)
                } else {
                    None
                },
            }
        },
    }
}

/// Ends a save to `path` with whether the file was written.
pub fn save_finish(path: &str, payload: &Data, written: bool, settings: Settings) -> (data: Data)
    ensures
        data@ == save_response(path@, payload.content@, written, settings.style),
{
    Data {
        content: payload.content.clone(),
        title: title_after_save(path, settings.style),
        saved: written,
    }
}

/// Loading straight after a save that wrote the file gives the saved
/// content back, marked as saved: the bytes the save hands to the disk
/// decode to the content they were made from. Stated of the texts whose
/// encoding this crate states in both directions.
pub proof fn lemma_load_returns_saved_content(
    path: Seq<char>,
    content: Seq<char>,
    settings: Settings,
)
    requires
        is_stated_text(settings.encoding, content),
        save_plan(path, content, settings) is Write,
    ensures
        save_plan(path, content, settings)->Write_path == path,
        load_response(path, Ok(save_plan(path, content, settings)->Write_bytes), settings) == (
        DataView { content, title: load_title(settings.style, path), saved: true }),
{
    lemma_stored_text_reads_back(settings.encoding, content);
}

/// Under UTF-8 every content that is not too long is written, and a load
/// straight after gives it back unchanged, marked as saved.
pub proof fn lemma_utf8_load_returns_saved_content(
    path: Seq<char>,
    content: Seq<char>,
    settings: Settings,
)
    requires
        settings.encoding == Encodes::Utf8,
        encode_utf8(content).len() <= codec_limit(),
    ensures
        save_plan(path, content, settings) == (SaveStepView::Write {
            path,
            bytes: encode_utf8(content),
        }),
        load_response(path, Ok(encode_utf8(content)), settings) == (DataView {
            content,
            title: load_title(settings.style, path),
            saved: true,
        }),
{
    lemma_utf8_is_lossless(content);
}

/// When several saves race for an unset cell, each with a path of its own
/// from the dialog, the path of the first to reach the cell is the one all
/// of them use: the `i`-th save writes to it or answers under its title,
/// and only the first save's pick is not dropped.
pub proof fn lemma_racing_saves_share_one_path(
    picks: Seq<Seq<char>>,
    i: int,
    payload: DataView,
    settings: Settings,
)
    requires
        0 <= i < picks.len(),
    ensures
        ({
            let before = offer_all(None, picks.take(i));
            let chosen = save_choice(before, Some(picks[i]), payload, settings);
            &&& cell_after_choice(before, Some(picks[i])) == Some(picks[0])
            &&& chosen.step == save_plan(picks[0], payload.content, settings)
            &&& chosen.step matches SaveStepView::Write { path, .. } ==> path == picks[0]
            &&& chosen.step matches SaveStepView::Respond(data) ==> data.title == save_title(
                settings.style,
                picks[0],
            )
            &&& chosen.discarded is Some <==> i > 0
        }),
{
    lemma_first_writer_wins(picks);
    let before = offer_all(None, picks.take(i));
    assert(offer_all(None, picks.take(i + 1)) == Some(picks[0]));
    assert(before is None <==> i == 0);
    if i > 0 {
        assert(picks.take(i) == picks.take((i - 1) + 1));
        assert(before == Some(picks[0]));
    } else {
        assert(picks.take(0).len() == 0);
    }
}

/// A save whose dialog is cancelled while no path is decided leaves the
/// cell unset and answers unsaved with the document as it came in, and a
/// load after it still gives the untitled document.
pub proof fn lemma_cancelled_save_leaves_no_trace(payload: DataView, settings: Settings)
    ensures
        cell_after_choice(None, None) is None,
        save_choice(None, None, payload, settings).step == SaveStepView::Respond(
            DataView { content: payload.content, title: payload.title, saved: false },
        ),
        load_plan(cell_after_choice(None, None)) == LoadStepView::Respond(untitled_response()),
{
}

/// Content that cannot be encoded is never written: the save ends without
/// a write step, and answers unsaved under the path's title.
pub proof fn lemma_unencodable_content_is_not_written(
    path: Seq<char>,
    content: Seq<char>,
    settings: Settings,
)
    requires
        encode_result(settings.encoding, content) is Err,
    ensures
        !(save_plan(path, content, settings) is Write),
        save_plan(path, content, settings) == SaveStepView::Respond(
            DataView { content, title: save_title(settings.style, path), saved: false },
        ),
{
}

} // verus!
