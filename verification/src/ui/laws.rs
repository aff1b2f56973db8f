//! What stands on screen, and where.

use super::address_book::{
    book_rows, entry_line, line_breaks, line_count, list_rows, menu, menu_items, menu_models,
    row_models, status_height, status_is_left_aligned, status_rows, BookRow, MenuItem,
};
use super::popup::{
    centered, centered_rect, chord_help_lines, column_after, delete_confirm_lines, delete_lines,
    field_models, form_field_views, form_fields, form_title, help_lines, host_key_trust_lines,
    password_field, settings_field_views, settings_fields, stars, trust_lines, FieldView,
};
use super::terminal_view::{
    bar_heights, capture_badge, input_cursor, input_cursor_column, input_line, status_bar,
    status_line,
};
use super::{line_models, Area, SegmentModel, TextLine, Tone};
use crate::app::book::BookModel;
use crate::app::model::AppModel;
use crate::app::App;
use crate::entry::{InputMode, Protocol};
use crate::popup::{
    EditSettingsModel, EditSettingsPopup, FormMode, FormModel, FormPopup, HostKeyTrustModel,
    HostKeyTrustPopup, PopupField, SettingsField,
};
use crate::text::decimal;
use vstd::prelude::*;
use vstd::utf8::encode_utf8;

verus! {

// ---------------------------------------------------------------------------
// The address book
// ---------------------------------------------------------------------------

/// A row of the address book says whether the entry has the live session, its protocol,
/// its name, host and port.
pub proof fn rows_say_what_entries_are(name: Seq<char>, host: Seq<char>, port: u16)
    ensures
        ({
            let tail = " "@ + name + " - "@ + (host + ":"@ + decimal(port as nat));
            let row = |connected: bool, protocol: Protocol|
                entry_line(connected, protocol, name, host, port);
            &&& row(true, Protocol::Telnet) =~= "* "@ + "[TEL]"@ + tail
            &&& row(false, Protocol::Telnet) =~= "  "@ + "[TEL]"@ + tail
            &&& row(true, Protocol::Ssh) =~= "* "@ + "[SSH]"@ + tail
            &&& row(false, Protocol::Ssh) =~= "  "@ + "[SSH]"@ + tail
        }),
{
}

/// There is a row for each entry, in order, and the one with the live session is marked.
pub proof fn each_entry_has_its_row(b: BookModel, i: int)
    requires
        0 <= i < b.entries.len(),
    ensures
        book_rows(b).len() == b.entries.len(),
        book_rows(b)[i].1 == (b.connected == Some(i)),
        book_rows(b)[i].0 == entry_line(
            b.connected == Some(i),
            b.entries[i].protocol,
            b.entries[i].name,
            b.entries[i].host,
            b.entries[i].port,
        ),
{
}

/// The menu offers to connect, or to resume the session of the selected entry, to add,
/// edit and delete, the settings, to disconnect where there is a session, and to quit.
pub proof fn the_menu_offers_what_can_be_done(b: BookModel)
    ensures
        ({
            let items = menu(b);
            let n = items.len();
            &&& n == (if b.connected is Some {
                7nat
            } else {
                6nat
            })
            &&& items[0] == (
                "Enter"@,
                if b.connected == Some(b.selected) {
                    "Resume"@
                } else {
                    "Connect"@
                },
            )
            &&& items[1] == ("A"@, "Add"@)
            &&& items[2] == ("E"@, "Edit"@)
            &&& items[3] == ("D"@, "Delete"@)
            &&& items[4] == ("S"@, "Settings"@)
            &&& b.connected is Some ==> items[5] == ("^D"@, "Disconnect"@)
            &&& items[n - 1] == ("Q"@, "Quit"@)
        }),
{
}

/// A line break ends a line: another line that follows it counts once more.
pub proof fn lines_are_counted_by_their_breaks(text: Seq<char>, c: char)
    ensures
        line_breaks(seq![]) == 0,
        line_breaks(text.push(c)) == line_breaks(text) + (if c == '\n' {
            1int
        } else {
            0int
        }),
        line_count(seq![]) == 0,
        line_count(text.push(c)) == line_breaks(text) + 1,
{
    assert(text.push(c).drop_last() =~= text);
}

/// The status takes a row when there is nothing to say, otherwise as many as it has lines,
/// eight at most, and two for its border.
pub proof fn the_status_has_room_for_its_lines(status: Seq<char>)
    ensures
        status.len() == 0 ==> status_rows(status) == 1,
        status.len() > 0 && line_count(status) <= 8 ==> status_rows(status) == line_count(status)
            + 2,
        status.len() > 0 && line_count(status) > 8 ==> status_rows(status) == 10,
{
}

// ---------------------------------------------------------------------------
// The terminal
// ---------------------------------------------------------------------------

/// The status bar says what happened last, how far the view is scrolled back if it is, and
/// the mode.
pub proof fn the_status_bar_says_where_things_stand(m: AppModel)
    ensures
        ({
            let keys = "] Tab: mode | Shift+PgUp/Dn: scroll | Esc: suspend"@;
            let mode = if m.input_mode == InputMode::Character {
                "CHAR"@
            } else {
                "LINE"@
            };
            let back = m.emulator.scroll_offset;
            &&& back == 0 ==> status_bar(m) =~= " "@ + m.status + " | ["@ + mode + keys
            &&& back > 0 ==> status_bar(m) =~= " "@ + m.status + (" [scroll: -"@ + decimal(
                back as nat,
            ) + "]"@) + " | ["@ + mode + keys
        }),
{
}

/// The cursor stands right after the input, two columns of prompt and one of border in,
/// and never beyond the end of the bar.
pub proof fn the_cursor_follows_the_input(x: u16, width: u16, input: Seq<char>)
    requires
        encode_utf8(input).len() < 65536,
    ensures
        ({
            let behind = x + 3 + encode_utf8(input).len();
            let last = if width == 0 {
                x as int
            } else {
                x + width - 1
            };
            &&& behind <= last ==> input_cursor(x, width, input) == behind
            &&& behind > last ==> input_cursor(x, width, input) == last
        }),
{
}

// ---------------------------------------------------------------------------
// Popups
// ---------------------------------------------------------------------------

/// A popup has the size that it is given, or that of the screen where it is larger, and
/// stands in the middle: half of what is left over is before it.
pub proof fn popups_stand_in_the_middle(width: u16, height: u16, area: Area)
    requires
        area.x + area.width <= u16::MAX,
        area.y + area.height <= u16::MAX,
    ensures
        ({
            let c = centered(width, height, area);
            &&& width <= area.width ==> c.width == width && c.x == area.x + (area.width - width) / 2
            &&& width > area.width ==> c.width == area.width && c.x == area.x
            &&& height <= area.height ==> c.height == height && c.y == area.y + (area.height
                - height) / 2
            &&& height > area.height ==> c.height == area.height && c.y == area.y
        }),
{
}

/// The question about a host key tells the host, the type of the key and its fingerprint;
/// yes is the answer that goes on, no the one that holds back.
pub proof fn the_host_key_is_shown(p: HostKeyTrustModel)
    ensures
        ({
            let lines = trust_lines(p);
            &&& lines.len() == 6
            &&& lines[0].len() == 1 && lines[0][0].text == "The server at "@ + (p.host + ":"@
                + decimal(p.port as nat)) + " presented a key we haven't seen before:"@
            &&& lines[2].len() == 1 && lines[2][0].text == "  Type:        "@ + p.key_type
            &&& lines[3].len() == 1 && lines[3][0].text == "  Fingerprint: "@ + p.fingerprint
            &&& lines[1].len() == 1 && lines[1][0].text == ""@
            &&& lines[4].len() == 1 && lines[4][0].text == ""@
            &&& lines[5].len() == 5
            &&& lines[5][2].text == "/"@
            &&& lines[5][4].text == "]"@
            &&& lines[5][0].text == "Trust and connect? ["@
            &&& lines[5][1] == (SegmentModel { text: "y"@, tone: Tone::Yes })
            &&& lines[5][3] == (SegmentModel { text: "N"@, tone: Tone::No })
        }),
{
}

/// The question whether to delete marks yes as the answer that destroys.
pub proof fn deleting_is_marked()
    ensures
        delete_lines().len() == 2,
        delete_lines()[0][0].text == "Delete this entry?"@,
        delete_lines()[1].len() == 4,
        delete_lines()[1][0] == (SegmentModel { text: " Y "@, tone: Tone::No }),
        delete_lines()[1][1].text == "Yes  "@,
        delete_lines()[1][2] == (SegmentModel { text: " N "@, tone: Tone::Yes }),
        delete_lines()[1][3].text == "No"@,
{
}

/// The help names the local commands `l` and `?`.
pub proof fn the_help_names_the_commands()
    ensures
        help_lines().len() == 5,
        help_lines()[1][1] == (SegmentModel { text: "l"@, tone: Tone::Key }),
        help_lines()[1][2].text == "    Toggle session capture (log)"@,
        help_lines()[2][1] == (SegmentModel { text: "?"@, tone: Tone::Key }),
        help_lines()[2][2].text == "    This help"@,
        help_lines()[4][0].text == "  Esc"@,
        help_lines()[4][1].text == " or any key to dismiss"@,
{
}

/// A form shows the name, host, port, protocol and user name, each under its label; the
/// cursor stands after the text of the field that has the focus, and nowhere else.
pub proof fn forms_show_their_fields(m: FormModel)
    ensures
        ({
            let fields = form_fields(m);
            let shows = |i: int, label: Seq<char>, value: Seq<char>, field: PopupField|
                {
                    &&& fields[i].label == label
                    &&& fields[i].active == (m.focused == field)
                    &&& m.focused == field ==> fields[i].text == value + " "@ && fields[i].cursor
                        == Some(column_after(value))
                    &&& m.focused != field ==> fields[i].cursor is None
                    &&& m.focused != field && value.len() > 0 ==> fields[i].text == value + " "@
                    &&& m.focused != field && value.len() == 0 ==> fields[i].text == " "@
                };
            &&& fields.len() == 5
            &&& shows(0, "Name:"@, m.name, PopupField::Name)
            &&& shows(1, "Host:"@, m.host, PopupField::Host)
            &&& shows(2, "Port:"@, m.port, PopupField::Port)
            &&& fields[3].label == "Type:"@
            &&& fields[3].active == (m.focused == PopupField::Protocol)
            &&& fields[3].cursor is None
            &&& m.protocol == Protocol::Telnet ==> fields[3].text == "Telnet"@
                + " (Space to toggle)"@
            &&& m.protocol == Protocol::Ssh ==> fields[3].text == "SSH"@ + " (Space to toggle)"@
            &&& shows(4, "User:"@, m.username, PopupField::Username)
        }),
{
}

/// The settings show the scrollback as typed, the mode and the terminal type.
pub proof fn settings_show_their_fields(m: EditSettingsModel)
    ensures
        ({
            let fields = settings_fields(m);
            &&& fields.len() == 3
            &&& fields[0].label == "Scrollback (lines):"@
            &&& fields[0].active == (m.focused == SettingsField::Scrollback)
            &&& fields[0].active ==> fields[0].text == m.scrollback + " "@ && fields[0].cursor
                == Some(column_after(m.scrollback))
            &&& !fields[0].active ==> fields[0].cursor is None && (m.scrollback.len() > 0
                ==> fields[0].text == m.scrollback + " "@)
            &&& fields[1].label == "Default input mode:"@
            &&& fields[1].active == (m.focused == SettingsField::Mode)
            &&& m.mode == InputMode::LineBuffered ==> fields[1].text == "line"@
                + " (Space to change)"@
            &&& m.mode == InputMode::Character ==> fields[1].text == "character"@
                + " (Space to change)"@
            &&& fields[2].label == "Terminal type:"@
            &&& fields[2].active == (m.focused == SettingsField::TerminalType)
            &&& fields[2].text == m.terminal_types[m.terminal_type] + " (Space to change)"@
            &&& fields[1].cursor is None && fields[2].cursor is None
        }),
{
}

/// A password is shown as stars, as many as it has bytes, and as nothing else.
pub proof fn passwords_are_shown_as_stars(n: nat, i: int)
    ensures
        stars(n).len() == n,
        0 <= i < n ==> stars(n)[i] == '*',
{
}

/// Columns are counted in bytes.
pub proof fn columns_are_counted_in_bytes(text: Seq<char>)
    requires
        encode_utf8(text).len() < 65536,
    ensures
        column_after(text) == encode_utf8(text).len(),
{
}

/// The bars below the terminal take a row for the status and, in line mode, three for the
/// input; the input bar shows the input after a prompt; a running capture shows a badge.
pub proof fn bars_show_their_contents(
    mode: InputMode,
    heights: (u16, u16),
    app: &App,
    line: String,
    badge: Option<&'static str>,
)
    requires
        call_ensures(bar_heights, (mode,), heights),
        call_ensures(input_line, (app,), line),
        call_ensures(capture_badge, (app,), badge),
    ensures
        heights.0 == 1,
        mode == InputMode::Character ==> heights.1 == 0,
        mode == InputMode::LineBuffered ==> heights.1 == 3,
        line@ == "> "@ + app.line.input@,
        badge is Some <==> app.capture is Some,
        badge is Some ==> badge->0@ == " ● REC "@,
{
}

/// The password field never shows the password: a star for each of its bytes, and a blank.
pub proof fn password_fields_hide_passwords(password: &str, view: FieldView)
    requires
        call_ensures(password_field, (password,), view),
    ensures
        view.label@ == "Pass:"@,
        view.text@.len() == encode_utf8(password@).len() + " "@.len(),
        forall|i: int| 0 <= i < encode_utf8(password@).len() ==> #[trigger] view.text@[i] == '*',
        view.active,
        view.cursor == Some(column_after(password@)),
{
}

/// A form says whether an entry is added or edited.
pub proof fn forms_are_titled(mode: FormMode, title: &'static str)
    requires
        call_ensures(form_title, (mode,), title),
    ensures
        mode == FormMode::Add ==> title@ == " Add Entry "@,
        mode == FormMode::Edit ==> title@ == " Edit Entry "@,
{
}

/// A status of several lines is shown from the left, a single one in the middle.
pub proof fn several_lines_start_on_the_left(status: &str, left: bool)
    requires
        call_ensures(status_is_left_aligned, (status,), left),
    ensures
        left <==> status@.contains('\n'),
{
}

/// What is put on screen is what the rows, menus, bars and popups say.
pub proof fn the_screen_shows_what_there_is(
    app: &App,
    rows: Vec<BookRow>,
    items: Vec<MenuItem>,
    bar: String,
    status: &str,
    height: u16,
    form: &FormPopup,
    fields: Vec<FieldView>,
    settings: &EditSettingsPopup,
    values: Vec<FieldView>,
    i: int,
)
    requires
        call_ensures(list_rows, (app,), rows),
        call_ensures(menu_items, (app,), items),
        call_ensures(status_line, (app,), bar),
        call_ensures(status_height, (status,), height),
        call_ensures(form_field_views, (form,), fields),
        call_ensures(settings_field_views, (settings,), values),
    ensures
        rows@.len() == app.book.entries@.len(),
        0 <= i < rows@.len() ==> rows@[i].text@ == book_rows(app@.book)[i].0 && rows@[i].connected
            == book_rows(app@.book)[i].1,
        items@.len() == menu(app@.book).len(),
        0 <= i < items@.len() ==> items@[i].key@ == menu(app@.book)[i].0 && items@[i].label@
            == menu(app@.book)[i].1,
        bar@ == status_bar(app@),
        height == status_rows(status@),
        fields@.len() == 5,
        0 <= i < 5 ==> {
            let shown = form_fields(form@)[i];
            &&& fields@[i].label@ == shown.label
            &&& fields@[i].text@ == shown.text
            &&& fields@[i].active == shown.active
            &&& fields@[i].cursor == shown.cursor
        },
        values@.len() == 3,
        0 <= i < 3 ==> {
            let shown = settings_fields(settings@)[i];
            &&& values@[i].label@ == shown.label
            &&& values@[i].text@ == shown.text
            &&& values@[i].active == shown.active
            &&& values@[i].cursor == shown.cursor
        },
{
    let listed = row_models(rows@);
    assert(listed.len() == rows@.len() && book_rows(app@.book).len() == app.book.entries@.len());
    if 0 <= i < rows@.len() {
        assert(listed[i] == (rows@[i].text@, rows@[i].connected));
    }
    let offered = menu_models(items@);
    assert(offered.len() == items@.len());
    if 0 <= i < items@.len() {
        assert(offered[i] == (items@[i].key@, items@[i].label@));
    }
    let shown = field_models(fields@);
    assert(shown.len() == fields@.len());
    if 0 <= i < 5 {
        assert(shown[i] == fields@[i]@);
    }
    let chosen = field_models(values@);
    assert(chosen.len() == values@.len());
    if 0 <= i < 3 {
        assert(chosen[i] == values@[i]@);
    }
}

/// Questions and help are put on screen piece by piece as they read; popups and cursors
/// stand where they belong.
pub proof fn questions_are_shown_as_they_read(
    trust: &HostKeyTrustPopup,
    asked: Vec<TextLine>,
    delete: Vec<TextLine>,
    help: Vec<TextLine>,
    width: u16,
    height: u16,
    area: Area,
    rect: Area,
    x: u16,
    input: &str,
    column: u16,
    i: int,
    j: int,
)
    requires
        call_ensures(host_key_trust_lines, (trust,), asked),
        call_ensures(delete_confirm_lines, (), delete),
        call_ensures(chord_help_lines, (), help),
        call_ensures(centered_rect, (width, height, area), rect),
        call_ensures(input_cursor_column, (x, width, input), column),
    ensures
        ({
            let reads = |lines: Vec<TextLine>, as_said: Seq<Seq<SegmentModel>>|
                {
                    &&& lines@.len() == as_said.len()
                    &&& 0 <= i < as_said.len() ==> lines@[i].segments@.len() == as_said[i].len()
                    &&& 0 <= i < as_said.len() && 0 <= j < as_said[i].len() ==> {
                        &&& lines@[i].segments@[j].text@ == as_said[i][j].text
                        &&& lines@[i].segments@[j].tone == as_said[i][j].tone
                    }
                };
            &&& reads(asked, trust_lines(trust@))
            &&& reads(delete, delete_lines())
            &&& reads(help, help_lines())
        }),
        rect == centered(width, height, area),
        column == input_cursor(x, width, input@),
{
    lemma_lines(asked, trust_lines(trust@), i, j);
    lemma_lines(delete, delete_lines(), i, j);
    lemma_lines(help, help_lines(), i, j);
}

proof fn lemma_lines(lines: Vec<TextLine>, said: Seq<Seq<SegmentModel>>, i: int, j: int)
    requires
        line_models(lines@) == said,
    ensures
        lines@.len() == said.len(),
        0 <= i < said.len() ==> lines@[i].segments@.len() == said[i].len(),
        0 <= i < said.len() && 0 <= j < said[i].len() ==> lines@[i].segments@[j].text@
            == said[i][j].text && lines@[i].segments@[j].tone == said[i][j].tone,
{
    assert(line_models(lines@).len() == lines@.len());
    if 0 <= i < said.len() {
        assert(line_models(lines@)[i] == lines@[i]@);
        assert(lines@[i]@.len() == lines@[i].segments@.len());
        if 0 <= j < said[i].len() {
            assert(lines@[i]@[j] == lines@[i].segments@[j]@);
        }
    }
}

} // verus!
