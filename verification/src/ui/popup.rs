//! Popups on screen.

use super::{line_models, plain, toned, Area, SegmentModel, TextLine, Tone};
use crate::entry::InputMode;
use crate::network::{address, host_address};
use crate::popup::{
    settings_form_wf, EditSettingsModel, EditSettingsPopup, FormMode, FormModel, FormPopup,
    HostKeyTrustModel, HostKeyTrustPopup, PopupField, SettingsField,
};
use vstd::prelude::*;
use vstd::string::*;
use vstd::utf8::encode_utf8;

verus! {

/// Column width reserved for the label column in every form field.
pub const LABEL_WIDTH: u16 = 6;

/// Column width reserved for the label column in the settings.
pub const SETTINGS_LABEL_WIDTH: u16 = 20;

/// The smaller of two numbers.
pub open spec fn smaller(a: u16, b: u16) -> u16 {
    if a < b {
        a
    } else {
        b
    }
}

/// An area of the given size in the middle of another one, no larger than it.
pub open spec fn centered(width: u16, height: u16, area: Area) -> Area {
    let w = smaller(width, area.width);
    let h = smaller(height, area.height);
    Area {
        x: (area.x + (area.width - w) / 2) as u16,
        y: (area.y + (area.height - h) / 2) as u16,
        width: w,
        height: h,
    }
}

/// An area of the given size in the middle of another one, no larger than it.
pub fn centered_rect(width: u16, height: u16, area: Area) -> (rect: Area)
    requires
        area.x + (area.width - smaller(width, area.width)) / 2 <= u16::MAX,
        area.y + (area.height - smaller(height, area.height)) / 2 <= u16::MAX,
    ensures
        rect == centered(width, height, area),
{
    let w: u16 = if width < area.width {
        width
    } else {
        area.width
    };
    let h: u16 = if height < area.height {
        height
    } else {
        area.height
    };
    Area {
        x: area.x + (area.width - w) / 2,
        y: area.y + (area.height - h) / 2,
        width: w,
        height: h,
    }
}

/// A centred area lies within the area around it, and has as much room on one side
/// as on the other, give or take one.
pub proof fn centered_lies_within(width: u16, height: u16, area: Area)
    requires
        area.x + (area.width - smaller(width, area.width)) / 2 <= u16::MAX,
        area.y + (area.height - smaller(height, area.height)) / 2 <= u16::MAX,
    ensures
        ({
            let c = centered(width, height, area);
            let right = area.x + area.width - (c.x + c.width);
            let below = area.y + area.height - (c.y + c.height);
            &&& area.x <= c.x && c.x + c.width <= area.x + area.width
            &&& area.y <= c.y && c.y + c.height <= area.y + area.height
            &&& 0 <= right - (c.x - area.x) <= 1
            &&& 0 <= below - (c.y - area.y) <= 1
        }),
{
}

/// The help on local commands.
pub open spec fn help_lines() -> Seq<Seq<SegmentModel>> {
    seq![
        seq![plain(""@)],
        seq![plain("  "@), toned("l"@, Tone::Key), plain("    Toggle session capture (log)"@)],
        seq![plain("  "@), toned("?"@, Tone::Key), plain("    This help"@)],
        seq![plain(""@)],
        seq![toned("  Esc"@, Tone::Bold), plain(" or any key to dismiss"@)],
    ]
}

/// An empty line of pieces.
fn no_pieces() -> (line: TextLine)
    ensures
        line@ == Seq::<SegmentModel>::empty(),
{
    let line = TextLine { segments: Vec::new() };
    assert(line@ =~= Seq::<SegmentModel>::empty());
    line
}

/// The help on local commands.
pub fn chord_help_lines() -> (lines: Vec<TextLine>)
    ensures
        line_models(lines@) == help_lines(),
{
    let capture = TextLine::plain("  ").with("l", Tone::Key).with(
        "    Toggle session capture (log)",
        Tone::Plain,
    );
    let help = TextLine::plain("  ").with("?", Tone::Key).with("    This help", Tone::Plain);
    let dismiss = no_pieces().with("  Esc", Tone::Bold).with(
        " or any key to dismiss",
        Tone::Plain,
    );
    assert(capture@ =~= help_lines()[1]);
    assert(help@ =~= help_lines()[2]);
    assert(dismiss@ =~= help_lines()[4]);
    let lines = vec![TextLine::plain(""), capture, help, TextLine::plain(""), dismiss];
    assert(line_models(lines@) =~= help_lines());
    lines
}

/// The question whether a host key is trusted.
pub open spec fn trust_lines(p: HostKeyTrustModel) -> Seq<Seq<SegmentModel>> {
    seq![
        seq![
            plain(
                "The server at "@ + address(p.host, p.port)
                    + " presented a key we haven't seen before:"@,
            ),
        ],
        seq![plain(""@)],
        seq![plain("  Type:        "@ + p.key_type)],
        seq![plain("  Fingerprint: "@ + p.fingerprint)],
        seq![plain(""@)],
        seq![
            plain("Trust and connect? ["@),
            toned("y"@, Tone::Yes),
            plain("/"@),
            toned("N"@, Tone::No),
            plain("]"@),
        ],
    ]
}

/// The question whether a host key is trusted.
pub fn host_key_trust_lines(popup: &HostKeyTrustPopup) -> (lines: Vec<TextLine>)
    ensures
        line_models(lines@) == trust_lines(popup@),
{
    let mut intro = "The server at ".to_owned();
    intro.append(&host_address(&popup.host, popup.port));
    intro.append(" presented a key we haven't seen before:");
    let mut key_type = "  Type:        ".to_owned();
    key_type.append(&popup.key_type);
    let mut fingerprint = "  Fingerprint: ".to_owned();
    fingerprint.append(&popup.fingerprint);
    let question = TextLine::plain("Trust and connect? [").with("y", Tone::Yes).with(
        "/",
        Tone::Plain,
    ).with("N", Tone::No).with("]", Tone::Plain);
    assert(question@ =~= trust_lines(popup@)[5]);
    let lines = vec![
        TextLine::plain(&intro),
        TextLine::plain(""),
        TextLine::plain(&key_type),
        TextLine::plain(&fingerprint),
        TextLine::plain(""),
        question,
    ];
    assert(line_models(lines@) =~= trust_lines(popup@));
    lines
}

/// The question whether to delete.
pub open spec fn delete_lines() -> Seq<Seq<SegmentModel>> {
    seq![
        seq![plain("Delete this entry?"@)],
        seq![
            toned(" Y "@, Tone::No),
            plain("Yes  "@),
            toned(" N "@, Tone::Yes),
            plain("No"@),
        ],
    ]
}

/// The question whether to delete. Here yes is the answer that destroys.
pub fn delete_confirm_lines() -> (lines: Vec<TextLine>)
    ensures
        line_models(lines@) == delete_lines(),
{
    let answers = no_pieces().with(" Y ", Tone::No).with("Yes  ", Tone::Plain).with(
        " N ",
        Tone::Yes,
    ).with("No", Tone::Plain);
    assert(answers@ =~= delete_lines()[1]);
    let lines = vec![TextLine::plain("Delete this entry?"), answers];
    assert(line_models(lines@) =~= delete_lines());
    lines
}

/// A field of a form.
#[derive(Debug)]
pub struct FieldView {
    pub label: &'static str,
    /// What stands in the field.
    pub text: String,
    /// Whether the field has the focus.
    pub active: bool,
    /// How far into the field the cursor stands, if it does.
    pub cursor: Option<u16>,
}

/// What a field shows.
#[verifier::ext_equal]
pub ghost struct FieldModel {
    pub label: Seq<char>,
    pub text: Seq<char>,
    pub active: bool,
    pub cursor: Option<u16>,
}

impl FieldView {
    /// What it holds.
    pub open spec fn view(&self) -> FieldModel {
        FieldModel {
            label: self.label@,
            text: self.text@,
            active: self.active,
            cursor: self.cursor,
        }
    }
}

/// The column after a text, counted in bytes. Columns are 16 bits wide.
pub open spec fn column_after(text: Seq<char>) -> u16 {
    (encode_utf8(text).len() % 65536) as u16
}

/// A text field: a blank where there is nothing to show.
pub open spec fn text_field(label: Seq<char>, value: Seq<char>, active: bool) -> FieldModel {
    FieldModel {
        label,
        text: if value.len() == 0 && !active {
            " "@
        } else {
            value + " "@
        },
        active,
        cursor: if active {
            Some(column_after(value))
        } else {
            None
        },
    }
}

/// A text field.
fn field(label: &'static str, value: &str, active: bool) -> (view: FieldView)
    ensures
        view@ == text_field(label@, value@, active),
{
    let text = if value.is_empty() && !active {
        " ".to_owned()
    } else {
        let mut text = value.to_owned();
        text.append(" ");
        text
    };
    let cursor = if active {
        Some((value.as_bytes().len() % 65536) as u16)
    } else {
        None
    };
    FieldView { label, text, active, cursor }
}

/// The fields of a form that are shown.
pub open spec fn form_fields(m: FormModel) -> Seq<FieldModel> {
    seq![
        text_field("Name:"@, m.name, m.focused == PopupField::Name),
        text_field("Host:"@, m.host, m.focused == PopupField::Host),
        text_field("Port:"@, m.port, m.focused == PopupField::Port),
        FieldModel {
            label: "Type:"@,
            text: crate::entry::protocol_name(m.protocol) + " (Space to toggle)"@,
            active: m.focused == PopupField::Protocol,
            cursor: None,
        },
        text_field("User:"@, m.username, m.focused == PopupField::Username),
    ]
}

/// What fields show.
pub open spec fn field_models(fields: Seq<FieldView>) -> Seq<FieldModel> {
    Seq::new(fields.len(), |i: int| fields[i]@)
}

/// The fields of a form that are shown, from top to bottom.
pub fn form_field_views(form: &FormPopup) -> (fields: Vec<FieldView>)
    ensures
        field_models(fields@) == form_fields(form@),
{
    let mut protocol = form.protocol.name().to_owned();
    protocol.append(" (Space to toggle)");
    let toggle = FieldView {
        label: "Type:",
        text: protocol,
        active: form.focused == PopupField::Protocol,
        cursor: None,
    };
    let fields = vec![
        field("Name:", &form.name, form.focused == PopupField::Name),
        field("Host:", &form.host, form.focused == PopupField::Host),
        field("Port:", &form.port_str, form.focused == PopupField::Port),
        toggle,
        field("User:", &form.username, form.focused == PopupField::Username),
    ];
    assert(field_models(fields@) =~= form_fields(form@));
    fields
}

/// The name of an input mode in the settings.
pub open spec fn mode_name(mode: InputMode) -> Seq<char> {
    match mode {
        InputMode::LineBuffered => "line"@,
        InputMode::Character => "character"@,
    }
}

/// A field whose value changes with the space bar.
pub open spec fn choice_field(label: Seq<char>, value: Seq<char>, active: bool) -> FieldModel {
    FieldModel { label, text: value + " (Space to change)"@, active, cursor: None }
}

/// A field whose value changes with the space bar.
fn choice(label: &'static str, value: &str, active: bool) -> (view: FieldView)
    ensures
        view@ == choice_field(label@, value@, active),
{
    let mut text = value.to_owned();
    text.append(" (Space to change)");
    FieldView { label, text, active, cursor: None }
}

/// The fields of the settings.
pub open spec fn settings_fields(m: EditSettingsModel) -> Seq<FieldModel> {
    seq![
        text_field("Scrollback (lines):"@, m.scrollback, m.focused == SettingsField::Scrollback),
        choice_field(
            "Default input mode:"@,
            mode_name(m.mode),
            m.focused == SettingsField::Mode,
        ),
        choice_field(
            "Terminal type:"@,
            m.terminal_types[m.terminal_type],
            m.focused == SettingsField::TerminalType,
        ),
    ]
}

/// The fields of the settings, from top to bottom.
pub fn settings_field_views(popup: &EditSettingsPopup) -> (fields: Vec<FieldView>)
    requires
        settings_form_wf(popup@),
    ensures
        field_models(fields@) == settings_fields(popup@),
{
    let mode = match popup.mode {
        InputMode::LineBuffered => "line",
        InputMode::Character => "character",
    };
    let fields = vec![
        field(
            "Scrollback (lines):",
            &popup.scrollback_input,
            popup.focused == SettingsField::Scrollback,
        ),
        choice("Default input mode:", mode, popup.focused == SettingsField::Mode),
        choice(
            "Terminal type:",
            popup.terminal_type_value(),
            popup.focused == SettingsField::TerminalType,
        ),
    ];
    assert(field_models(fields@) =~= settings_fields(popup@));
    fields
}

/// The title of a form.
pub fn form_title(mode: FormMode) -> (title: &'static str)
    ensures
        title@ == (match mode {
            FormMode::Add => " Add Entry "@,
            FormMode::Edit => " Edit Entry "@,
        }),
{
    match mode {
        FormMode::Add => " Add Entry ",
        FormMode::Edit => " Edit Entry ",
    }
}

/// A star for each of `n` bytes.
pub open spec fn stars(n: nat) -> Seq<char> {
    Seq::new(n, |i: int| '*')
}

/// The password field: a star for each byte, never the password.
pub fn password_field(password: &str) -> (view: FieldView)
    ensures
        view@.label == "Pass:"@,
        view@.text == stars(encode_utf8(password@).len()) + " "@,
        view@.active,
        view@.cursor == Some(column_after(password@)),
{
    let n: usize = password.as_bytes().len();
    let mut text = String::new();
    let mut i: usize = 0;
    assert(text@ =~= stars(0));
    while i < n
        invariant
            i <= n,
            text@ == stars(i as nat),
        decreases n - i,
    {
        text.push('*');
        i = i + 1;
        assert(text@ =~= stars(i as nat));
    }
    text.append(" ");
    FieldView { label: "Pass:", text, active: true, cursor: Some((n % 65536) as u16) }
}

/// A form shows at most one cursor, and that in the field with the focus.
pub proof fn the_focus_has_the_cursor(m: FormModel, i: int)
    requires
        0 <= i < form_fields(m).len(),
    ensures
        form_fields(m)[i].cursor is Some ==> form_fields(m)[i].active,
        forall|j: int|
            0 <= j < form_fields(m).len() && j != i && form_fields(m)[i].active
                ==> !(#[trigger] form_fields(m)[j]).active,
{
}

} // verus!
