//! The configuration record, its defaults, and loading with healing: a
//! stored document that lacks a field gets that field, and no other, from its
//! default.

use vstd::prelude::*;
use vstd::string::*;

verus! {

/// One block of the file name template.
#[derive(Debug, PartialEq, Eq)]
pub struct FilenameBlock {
    pub id: String,
    pub enabled: bool,
    pub value: Option<String>,
}

/// How the name of a capture file is put together.
#[derive(Debug, PartialEq, Eq)]
pub struct FilenameTemplate {
    pub blocks: Vec<FilenameBlock>,
    pub use_counter: bool,
}

/// The configuration: the capture options, which this library carries
/// without reading them, and one shortcut string for each slot.
#[derive(Debug, PartialEq, Eq)]
pub struct Settings {
    pub quality: u32,
    pub max_width: u32,
    pub note_prefix_enabled: bool,
    pub note_prefix: String,
    pub filename_template: FilenameTemplate,
    pub fullscreen_shortcut: String,
    pub area_shortcut: String,
    pub stitch_shortcut: String,
}

/// A [`FilenameBlock`] over plain values.
pub struct FilenameBlockView {
    pub id: Seq<char>,
    pub enabled: bool,
    pub value: Option<Seq<char>>,
}

/// A [`FilenameTemplate`] over plain values.
pub struct FilenameTemplateView {
    pub blocks: Seq<FilenameBlockView>,
    pub use_counter: bool,
}

/// A [`Settings`] over plain values.
pub struct SettingsView {
    pub quality: u32,
    pub max_width: u32,
    pub note_prefix_enabled: bool,
    pub note_prefix: Seq<char>,
    pub filename_template: FilenameTemplateView,
    pub fullscreen_shortcut: Seq<char>,
    pub area_shortcut: Seq<char>,
    pub stitch_shortcut: Seq<char>,
}

/// An optional string over plain values.
pub open spec fn text_view(value: Option<String>) -> Option<Seq<char>> {
    match value {
        Some(s) => Some(s@),
        None => None,
    }
}

impl View for FilenameBlock {
    type V = FilenameBlockView;

    open spec fn view(&self) -> FilenameBlockView {
        FilenameBlockView { id: self.id@, enabled: self.enabled, value: text_view(self.value) }
    }
}

impl View for FilenameTemplate {
    type V = FilenameTemplateView;

    open spec fn view(&self) -> FilenameTemplateView {
        FilenameTemplateView {
            blocks: Seq::new(self.blocks@.len(), |i: int| self.blocks@[i]@),
            use_counter: self.use_counter,
        }
    }
}

impl View for Settings {
    type V = SettingsView;

    open spec fn view(&self) -> SettingsView {
        SettingsView {
            quality: self.quality,
            max_width: self.max_width,
            note_prefix_enabled: self.note_prefix_enabled,
            note_prefix: self.note_prefix@,
            filename_template: self.filename_template@,
            fullscreen_shortcut: self.fullscreen_shortcut@,
            area_shortcut: self.area_shortcut@,
            stitch_shortcut: self.stitch_shortcut@,
        }
    }
}

impl Clone for FilenameBlock {
    fn clone(&self) -> (r: Self)
        ensures
            r@ == self@,
    {
        let value = match &self.value {
            Some(s) => Some(s.clone()),
            None => None,
        };
        FilenameBlock { id: self.id.clone(), enabled: self.enabled, value }
    }
}

impl Clone for FilenameTemplate {
    fn clone(&self) -> (r: Self)
        ensures
            r@ == self@,
    {
        let n: usize = self.blocks.len();
        let mut blocks: Vec<FilenameBlock> = Vec::new();
        let mut i: usize = 0;
        while i < n
            invariant
                n == self.blocks@.len(),
                i <= n,
                blocks@.len() == i,
                forall|j: int| 0 <= j < i ==> blocks@[j]@ == self.blocks@[j]@,
            decreases n - i,
        {
            blocks.push(self.blocks[i].clone());
            i = i + 1;
        }
        let r = FilenameTemplate { blocks, use_counter: self.use_counter };
        assert(r@.blocks =~= self@.blocks);
        r
    }
}

impl Clone for Settings {
    fn clone(&self) -> (r: Self)
        ensures
            r@ == self@,
    {
        Settings {
            quality: self.quality,
            max_width: self.max_width,
            note_prefix_enabled: self.note_prefix_enabled,
            note_prefix: self.note_prefix.clone(),
            filename_template: self.filename_template.clone(),
            fullscreen_shortcut: self.fullscreen_shortcut.clone(),
            area_shortcut: self.area_shortcut.clone(),
            stitch_shortcut: self.stitch_shortcut.clone(),
        }
    }
}

/// A block of the default template.
pub open spec fn default_block(id: Seq<char>, enabled: bool) -> FilenameBlockView {
    FilenameBlockView { id, enabled, value: None }
}

/// The default template: prefix, date, time, quality and dimensions are
/// on, the counter is off.
pub open spec fn default_template() -> FilenameTemplateView {
    FilenameTemplateView {
        blocks: seq![
            FilenameBlockView { id: "prefix"@, enabled: true, value: Some("llm-scr"@) },
            default_block("date"@, true),
            default_block("time"@, true),
            default_block("quality"@, true),
            default_block("dimensions"@, true),
            default_block("counter"@, false),
        ],
        use_counter: false,
    }
}

/// The default configuration.
pub open spec fn default_settings() -> SettingsView {
    SettingsView {
        quality: 70,
        max_width: 1024,
        note_prefix_enabled: false,
        note_prefix: Seq::<char>::empty(),
        filename_template: default_template(),
        fullscreen_shortcut: "Cmd+Shift+3"@,
        area_shortcut: "Cmd+Shift+4"@,
        stitch_shortcut: "Cmd+Shift+2"@,
    }
}

fn plain_block(id: &str, enabled: bool) -> (r: FilenameBlock)
    ensures
        r@ == default_block(id@, enabled),
{
    FilenameBlock { id: String::from_str(id), enabled, value: None }
}

impl Default for FilenameTemplate {
    fn default() -> (r: Self)
        ensures
            r@ == default_template(),
    {
        let mut blocks: Vec<FilenameBlock> = Vec::new();
        blocks.push(
            FilenameBlock {
                id: String::from_str("prefix"),
                enabled: true,
                value: Some(String::from_str("llm-scr")),
            },
        );
        blocks.push(plain_block("date", true));
        blocks.push(plain_block("time", true));
        blocks.push(plain_block("quality", true));
        blocks.push(plain_block("dimensions", true));
        blocks.push(plain_block("counter", false));
        let r = FilenameTemplate { blocks, use_counter: false };
        assert(r@.blocks =~= default_template().blocks);
        r
    }
}

/// The shortcut that captures the whole screen, unless configured otherwise.
pub fn default_fullscreen_shortcut() -> (r: String)
    ensures
        r@ == "Cmd+Shift+3"@,
{
    String::from_str("Cmd+Shift+3")
}

/// The shortcut that captures an area, unless configured otherwise.
pub fn default_area_shortcut() -> (r: String)
    ensures
        r@ == "Cmd+Shift+4"@,
{
    String::from_str("Cmd+Shift+4")
}

/// The shortcut that stitches images, unless configured otherwise.
pub fn default_stitch_shortcut() -> (r: String)
    ensures
        r@ == "Cmd+Shift+2"@,
{
    String::from_str("Cmd+Shift+2")
}

impl Default for Settings {
    fn default() -> (r: Self)
        ensures
            r@ == default_settings(),
    {
        Settings {
            quality: 70,
            max_width: 1024,
            note_prefix_enabled: false,
            note_prefix: String::new(),
            filename_template: FilenameTemplate::default(),
            fullscreen_shortcut: default_fullscreen_shortcut(),
            area_shortcut: default_area_shortcut(),
            stitch_shortcut: default_stitch_shortcut(),
        }
    }
}

/// What a stored document holds: each field of the configuration, or nothing
/// where the document has no such field.
#[derive(Debug, PartialEq, Eq)]
pub struct StoredSettings {
    pub quality: Option<u32>,
    pub max_width: Option<u32>,
    pub note_prefix_enabled: Option<bool>,
    pub note_prefix: Option<String>,
    pub filename_template: Option<FilenameTemplate>,
    pub fullscreen_shortcut: Option<String>,
    pub area_shortcut: Option<String>,
    pub stitch_shortcut: Option<String>,
}

/// What was found where the configuration is kept.
#[derive(Debug, PartialEq, Eq)]
pub enum PersistedDocument {
    /// Nothing is stored.
    Absent,
    /// Something is stored that cannot be read as a configuration.
    Unreadable,
    /// A document, with the fields that it holds.
    Present(StoredSettings),
}

/// A [`StoredSettings`] over plain values.
pub struct StoredSettingsView {
    pub quality: Option<u32>,
    pub max_width: Option<u32>,
    pub note_prefix_enabled: Option<bool>,
    pub note_prefix: Option<Seq<char>>,
    pub filename_template: Option<FilenameTemplateView>,
    pub fullscreen_shortcut: Option<Seq<char>>,
    pub area_shortcut: Option<Seq<char>>,
    pub stitch_shortcut: Option<Seq<char>>,
}

/// A [`PersistedDocument`] over plain values.
pub enum PersistedDocumentView {
    Absent,
    Unreadable,
    Present(StoredSettingsView),
}

/// An optional template over plain values.
pub open spec fn template_view(value: Option<FilenameTemplate>) -> Option<FilenameTemplateView> {
    match value {
        Some(t) => Some(t@),
        None => None,
    }
}

impl View for StoredSettings {
    type V = StoredSettingsView;

    open spec fn view(&self) -> StoredSettingsView {
        StoredSettingsView {
            quality: self.quality,
            max_width: self.max_width,
            note_prefix_enabled: self.note_prefix_enabled,
            note_prefix: text_view(self.note_prefix),
            filename_template: template_view(self.filename_template),
            fullscreen_shortcut: text_view(self.fullscreen_shortcut),
            area_shortcut: text_view(self.area_shortcut),
            stitch_shortcut: text_view(self.stitch_shortcut),
        }
    }
}

impl View for PersistedDocument {
    type V = PersistedDocumentView;

    open spec fn view(&self) -> PersistedDocumentView {
        match self {
            PersistedDocument::Absent => PersistedDocumentView::Absent,
            PersistedDocument::Unreadable => PersistedDocumentView::Unreadable,
            PersistedDocument::Present(stored) => PersistedDocumentView::Present(stored@),
        }
    }
}

/// A stored value, or the default where nothing is stored.
pub open spec fn stored_or<T>(stored: Option<T>, default: T) -> T {
    match stored {
        Some(v) => v,
        None => default,
    }
}

/// The configuration that a stored document stands for: each field as it is
/// stored, and the default of each field that is not.
pub open spec fn healed(stored: StoredSettingsView) -> SettingsView {
    let d = default_settings();
    SettingsView {
        quality: stored_or(stored.quality, d.quality),
        max_width: stored_or(stored.max_width, d.max_width),
        note_prefix_enabled: stored_or(stored.note_prefix_enabled, d.note_prefix_enabled),
        note_prefix: stored_or(stored.note_prefix, d.note_prefix),
        filename_template: stored_or(stored.filename_template, d.filename_template),
        fullscreen_shortcut: stored_or(stored.fullscreen_shortcut, d.fullscreen_shortcut),
        area_shortcut: stored_or(stored.area_shortcut, d.area_shortcut),
        stitch_shortcut: stored_or(stored.stitch_shortcut, d.stitch_shortcut),
    }
}

/// Whether a stored document holds every field.
pub open spec fn is_complete(stored: StoredSettingsView) -> bool {
    &&& stored.quality is Some
    &&& stored.max_width is Some
    &&& stored.note_prefix_enabled is Some
    &&& stored.note_prefix is Some
    &&& stored.filename_template is Some
    &&& stored.fullscreen_shortcut is Some
    &&& stored.area_shortcut is Some
    &&& stored.stitch_shortcut is Some
}

/// The configuration that loading gives.
pub open spec fn loaded_settings(doc: PersistedDocumentView) -> SettingsView {
    match doc {
        PersistedDocumentView::Present(stored) => healed(stored),
        _ => default_settings(),
    }
}

/// Whether loading had to mend the document, so that it should be stored
/// again: a field was missing, or the document could not be read. Where
/// nothing is stored nothing is mended.
pub open spec fn loaded_mended(doc: PersistedDocumentView) -> bool {
    match doc {
        PersistedDocumentView::Absent => false,
        PersistedDocumentView::Unreadable => true,
        PersistedDocumentView::Present(stored) => !is_complete(stored),
    }
}

/// The document that storing a configuration writes: every field.
pub open spec fn stored_form(settings: SettingsView) -> StoredSettingsView {
    StoredSettingsView {
        quality: Some(settings.quality),
        max_width: Some(settings.max_width),
        note_prefix_enabled: Some(settings.note_prefix_enabled),
        note_prefix: Some(settings.note_prefix),
        filename_template: Some(settings.filename_template),
        fullscreen_shortcut: Some(settings.fullscreen_shortcut),
        area_shortcut: Some(settings.area_shortcut),
        stitch_shortcut: Some(settings.stitch_shortcut),
    }
}

fn text_or(stored: Option<String>, default: String) -> (r: String)
    ensures
        r@ == stored_or(text_view(stored), default@),
{
    match stored {
        Some(v) => v,
        None => default,
    }
}

/// Loads the configuration from what was found in its place.
///
/// Where nothing is stored, or what is stored cannot be read, the result is
/// the default configuration. Where a document is stored, each field that it
/// holds is taken as it is, and each field that it lacks gets its own default.
/// The second part of the result says whether anything was mended.
pub fn load_settings(doc: PersistedDocument) -> (r: (Settings, bool))
    ensures
        r.0@ == loaded_settings(doc@),
        r.1 == loaded_mended(doc@),
{
    match doc {
        PersistedDocument::Absent => (Settings::default(), false),
        PersistedDocument::Unreadable => (Settings::default(), true),
        PersistedDocument::Present(stored) => {
            let mended = stored.quality.is_none() || stored.max_width.is_none()
                || stored.note_prefix_enabled.is_none() || stored.note_prefix.is_none()
                || stored.filename_template.is_none() || stored.fullscreen_shortcut.is_none()
                || stored.area_shortcut.is_none() || stored.stitch_shortcut.is_none();
            let filename_template = match stored.filename_template {
                Some(t) => t,
                None => FilenameTemplate::default(),
            };
            let settings = Settings {
                quality: match stored.quality {
                    Some(v) => v,
                    None => 70,
                },
                max_width: match stored.max_width {
                    Some(v) => v,
                    None => 1024,
                },
                note_prefix_enabled: match stored.note_prefix_enabled {
                    Some(v) => v,
                    None => false,
                },
                note_prefix: text_or(stored.note_prefix, String::new()),
                filename_template,
                fullscreen_shortcut: text_or(
                    stored.fullscreen_shortcut,
                    default_fullscreen_shortcut(),
                ),
                area_shortcut: text_or(stored.area_shortcut, default_area_shortcut()),
                stitch_shortcut: text_or(stored.stitch_shortcut, default_stitch_shortcut()),
            };
            (settings, mended)
        },
    }
}

impl Settings {
    /// The document that stores this configuration: every field, as it is.
    pub fn to_stored(&self) -> (r: StoredSettings)
        ensures
            r@ == stored_form(self@),
    {
        StoredSettings {
            quality: Some(self.quality),
            max_width: Some(self.max_width),
            note_prefix_enabled: Some(self.note_prefix_enabled),
            note_prefix: Some(self.note_prefix.clone()),
            filename_template: Some(self.filename_template.clone()),
            fullscreen_shortcut: Some(self.fullscreen_shortcut.clone()),
            area_shortcut: Some(self.area_shortcut.clone()),
            stitch_shortcut: Some(self.stitch_shortcut.clone()),
        }
    }
}

/// Loading what was stored gives back the configuration that was stored, and
/// nothing is mended.
pub proof fn load_inverts_store(settings: SettingsView)
    ensures
        loaded_settings(PersistedDocumentView::Present(stored_form(settings))) == settings,
        !loaded_mended(PersistedDocumentView::Present(stored_form(settings))),
{
}

/// A field that the document holds is loaded as it is stored, whatever else
/// the document lacks; a field that it lacks is loaded as its default.
pub proof fn load_heals_by_field(stored: StoredSettingsView)
    ensures
        ({
            let r = loaded_settings(PersistedDocumentView::Present(stored));
            let d = default_settings();
            &&& r.quality == if stored.quality is Some { stored.quality->Some_0 } else { d.quality }
            &&& r.max_width == if stored.max_width is Some {
                stored.max_width->Some_0
            } else {
                d.max_width
            }
            &&& r.note_prefix_enabled == if stored.note_prefix_enabled is Some {
                stored.note_prefix_enabled->Some_0
            } else {
                d.note_prefix_enabled
            }
            &&& r.note_prefix == if stored.note_prefix is Some {
                stored.note_prefix->Some_0
            } else {
                d.note_prefix
            }
            &&& r.filename_template == if stored.filename_template is Some {
                stored.filename_template->Some_0
            } else {
                d.filename_template
            }
            &&& r.fullscreen_shortcut == if stored.fullscreen_shortcut is Some {
                stored.fullscreen_shortcut->Some_0
            } else {
                d.fullscreen_shortcut
            }
            &&& r.area_shortcut == if stored.area_shortcut is Some {
                stored.area_shortcut->Some_0
            } else {
                d.area_shortcut
            }
            &&& r.stitch_shortcut == if stored.stitch_shortcut is Some {
                stored.stitch_shortcut->Some_0
            } else {
                d.stitch_shortcut
            }
        }),
        loaded_mended(PersistedDocumentView::Present(stored)) == !is_complete(stored),
{
}

} // verus!
