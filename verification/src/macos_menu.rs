//! The symbols that the menu items of the application carry on macOS.
//!
//! Items are found by their title. An item without a symbol of its own, as
//! the items that genies add, carries the fallback symbol.

use vstd::prelude::*;

use crate::text::same_text;

verus! {

/// The symbol of an item that has none of its own.
pub const FALLBACK_ICON: &'static str = "sparkles";

/// The symbols of the items of the App menu.
pub open spec fn app_icon(title: Seq<char>) -> Option<Seq<char>> {
    if title == "About VMark"@ {
        Some("info.circle"@)
    } else if title == "Settings..."@ {
        Some("gearshape"@)
    } else if title == "Hide VMark"@ {
        Some("eye.slash"@)
    } else if title == "Hide Others"@ {
        Some("eye.slash.circle"@)
    } else if title == "Show All"@ {
        Some("eye"@)
    } else if title == "Save All and Quit"@ {
        Some("rectangle.portrait.and.arrow.right"@)
    } else if title == "Save All and Exit"@ {
        Some("rectangle.portrait.and.arrow.right"@)
    } else if title == "Quit VMark"@ {
        Some("power"@)
    } else if title == "Exit"@ {
        Some("power"@)
    } else {
        None
    }
}

fn app_icon_for(title: &str) -> (r: Option<&'static str>)
    ensures
        match r {
            Some(icon) => app_icon(title@) == Some(icon@),
            None => app_icon(title@) is None,
        },
{
    if same_text(title, "About VMark") {
        Some("info.circle")
    } else if same_text(title, "Settings...") {
        Some("gearshape")
    } else if same_text(title, "Hide VMark") {
        Some("eye.slash")
    } else if same_text(title, "Hide Others") {
        Some("eye.slash.circle")
    } else if same_text(title, "Show All") {
        Some("eye")
    } else if same_text(title, "Save All and Quit") {
        Some("rectangle.portrait.and.arrow.right")
    } else if same_text(title, "Save All and Exit") {
        Some("rectangle.portrait.and.arrow.right")
    } else if same_text(title, "Quit VMark") {
        Some("power")
    } else if same_text(title, "Exit") {
        Some("power")
    } else {
        None
    }
}

/// The symbols of the items of the File menu.
pub open spec fn file_icon(title: Seq<char>) -> Option<Seq<char>> {
    if title == "New"@ {
        Some("doc.badge.plus"@)
    } else if title == "New Window"@ {
        Some("macwindow.badge.plus"@)
    } else if title == "Open..."@ {
        Some("folder"@)
    } else if title == "Open Folder..."@ {
        Some("folder.badge.gearshape"@)
    } else if title == "Close"@ {
        Some("xmark"@)
    } else if title == "Close Workspace"@ {
        Some("xmark.square"@)
    } else if title == "Save"@ {
        Some("arrow.down.doc"@)
    } else if title == "Save As..."@ {
        Some("arrow.down.doc.fill"@)
    } else if title == "Move to..."@ {
        Some("folder.badge.questionmark"@)
    } else if title == "HTML..."@ {
        Some("doc.richtext"@)
    } else if title == "Print..."@ {
        Some("printer"@)
    } else if title == "Copy as HTML"@ {
        Some("doc.text"@)
    } else if title == "View History..."@ {
        Some("clock"@)
    } else if title == "Clear History..."@ {
        Some("clock.badge.xmark"@)
    } else if title == "Clear Recent Files"@ {
        Some("trash"@)
    } else if title == "Clear Recent Workspaces"@ {
        Some("trash"@)
    } else {
        None
    }
}

fn file_icon_for(title: &str) -> (r: Option<&'static str>)
    ensures
        match r {
            Some(icon) => file_icon(title@) == Some(icon@),
            None => file_icon(title@) is None,
        },
{
    if same_text(title, "New") {
        Some("doc.badge.plus")
    } else if same_text(title, "New Window") {
        Some("macwindow.badge.plus")
    } else if same_text(title, "Open...") {
        Some("folder")
    } else if same_text(title, "Open Folder...") {
        Some("folder.badge.gearshape")
    } else if same_text(title, "Close") {
        Some("xmark")
    } else if same_text(title, "Close Workspace") {
        Some("xmark.square")
    } else if same_text(title, "Save") {
        Some("arrow.down.doc")
    } else if same_text(title, "Save As...") {
        Some("arrow.down.doc.fill")
    } else if same_text(title, "Move to...") {
        Some("folder.badge.questionmark")
    } else if same_text(title, "HTML...") {
        Some("doc.richtext")
    } else if same_text(title, "Print...") {
        Some("printer")
    } else if same_text(title, "Copy as HTML") {
        Some("doc.text")
    } else if same_text(title, "View History...") {
        Some("clock")
    } else if same_text(title, "Clear History...") {
        Some("clock.badge.xmark")
    } else if same_text(title, "Clear Recent Files") {
        Some("trash")
    } else if same_text(title, "Clear Recent Workspaces") {
        Some("trash")
    } else {
        None
    }
}

/// The symbols of the items of the Edit menu.
pub open spec fn edit_icon(title: Seq<char>) -> Option<Seq<char>> {
    if title == "Undo"@ {
        Some("arrow.uturn.backward"@)
    } else if title == "Redo"@ {
        Some("arrow.uturn.forward"@)
    } else if title == "Cut"@ {
        Some("scissors"@)
    } else if title == "Copy"@ {
        Some("doc.on.doc"@)
    } else if title == "Paste"@ {
        Some("doc.on.clipboard"@)
    } else if title == "Select All"@ {
        Some("checkmark.square"@)
    } else if title == "Find and Replace..."@ {
        Some("magnifyingglass"@)
    } else if title == "Find Next"@ {
        Some("chevron.down"@)
    } else if title == "Find Previous"@ {
        Some("chevron.up"@)
    } else if title == "Use Selection for Find"@ {
        Some("text.magnifyingglass"@)
    } else if title == "Select Word"@ {
        Some("textformat.abc"@)
    } else if title == "Select Line"@ {
        Some("arrow.left.and.line.vertical.and.arrow.right"@)
    } else if title == "Select Block"@ {
        Some("rectangle.dashed"@)
    } else if title == "Expand Selection"@ {
        Some("arrow.up.left.and.arrow.down.right"@)
    } else if title == "Move Line Up"@ {
        Some("arrow.up"@)
    } else if title == "Move Line Down"@ {
        Some("arrow.down"@)
    } else if title == "Duplicate Line"@ {
        Some("plus.square.on.square"@)
    } else if title == "Delete Line"@ {
        Some("trash"@)
    } else if title == "Join Lines"@ {
        Some("text.justify"@)
    } else if title == "Remove Blank Lines"@ {
        Some("line.3.horizontal.decrease"@)
    } else if title == "Sort Lines Ascending"@ {
        Some("arrow.up.right"@)
    } else if title == "Sort Lines Descending"@ {
        Some("arrow.down.right"@)
    } else if title == "Convert to LF"@ {
        Some("l.circle"@)
    } else if title == "Convert to CRLF"@ {
        Some("c.circle"@)
    } else {
        None
    }
}

fn edit_icon_for(title: &str) -> (r: Option<&'static str>)
    ensures
        match r {
            Some(icon) => edit_icon(title@) == Some(icon@),
            None => edit_icon(title@) is None,
        },
{
    if same_text(title, "Undo") {
        Some("arrow.uturn.backward")
    } else if same_text(title, "Redo") {
        Some("arrow.uturn.forward")
    } else if same_text(title, "Cut") {
        Some("scissors")
    } else if same_text(title, "Copy") {
        Some("doc.on.doc")
    } else if same_text(title, "Paste") {
        Some("doc.on.clipboard")
    } else if same_text(title, "Select All") {
        Some("checkmark.square")
    } else if same_text(title, "Find and Replace...") {
        Some("magnifyingglass")
    } else if same_text(title, "Find Next") {
        Some("chevron.down")
    } else if same_text(title, "Find Previous") {
        Some("chevron.up")
    } else if same_text(title, "Use Selection for Find") {
        Some("text.magnifyingglass")
    } else if same_text(title, "Select Word") {
        Some("textformat.abc")
    } else if same_text(title, "Select Line") {
        Some("arrow.left.and.line.vertical.and.arrow.right")
    } else if same_text(title, "Select Block") {
        Some("rectangle.dashed")
    } else if same_text(title, "Expand Selection") {
        Some("arrow.up.left.and.arrow.down.right")
    } else if same_text(title, "Move Line Up") {
        Some("arrow.up")
    } else if same_text(title, "Move Line Down") {
        Some("arrow.down")
    } else if same_text(title, "Duplicate Line") {
        Some("plus.square.on.square")
    } else if same_text(title, "Delete Line") {
        Some("trash")
    } else if same_text(title, "Join Lines") {
        Some("text.justify")
    } else if same_text(title, "Remove Blank Lines") {
        Some("line.3.horizontal.decrease")
    } else if same_text(title, "Sort Lines Ascending") {
        Some("arrow.up.right")
    } else if same_text(title, "Sort Lines Descending") {
        Some("arrow.down.right")
    } else if same_text(title, "Convert to LF") {
        Some("l.circle")
    } else if same_text(title, "Convert to CRLF") {
        Some("c.circle")
    } else {
        None
    }
}

/// The symbols of the items of the Format menu.
pub open spec fn format_icon(title: Seq<char>) -> Option<Seq<char>> {
    if title == "Bold"@ {
        Some("bold"@)
    } else if title == "Italic"@ {
        Some("italic"@)
    } else if title == "Underline"@ {
        Some("underline"@)
    } else if title == "Strikethrough"@ {
        Some("strikethrough"@)
    } else if title == "Inline Code"@ {
        Some("chevron.left.forwardslash.chevron.right"@)
    } else if title == "Highlight"@ {
        Some("highlighter"@)
    } else if title == "Subscript"@ {
        Some("textformat.subscript"@)
    } else if title == "Superscript"@ {
        Some("textformat.superscript"@)
    } else if title == "Clear Format"@ {
        Some("paintbrush"@)
    } else if title == "Heading 1"@ {
        Some("1.circle"@)
    } else if title == "Heading 2"@ {
        Some("2.circle"@)
    } else if title == "Heading 3"@ {
        Some("3.circle"@)
    } else if title == "Heading 4"@ {
        Some("4.circle"@)
    } else if title == "Heading 5"@ {
        Some("5.circle"@)
    } else if title == "Heading 6"@ {
        Some("6.circle"@)
    } else if title == "Paragraph"@ {
        Some("paragraph"@)
    } else if title == "Increase Heading Level"@ {
        Some("plus.circle"@)
    } else if title == "Decrease Heading Level"@ {
        Some("minus.circle"@)
    } else if title == "Ordered List"@ {
        Some("list.number"@)
    } else if title == "Unordered List"@ {
        Some("list.bullet"@)
    } else if title == "Task List"@ {
        Some("checklist"@)
    } else if title == "Indent"@ {
        Some("increase.indent"@)
    } else if title == "Outdent"@ {
        Some("decrease.indent"@)
    } else if title == "Remove List"@ {
        Some("xmark.circle"@)
    } else if title == "Quote"@ {
        Some("text.quote"@)
    } else if title == "Nest Quote"@ {
        Some("increase.indent"@)
    } else if title == "Unnest Quote"@ {
        Some("decrease.indent"@)
    } else if title == "UPPERCASE"@ {
        Some("textformat.size.larger"@)
    } else if title == "lowercase"@ {
        Some("textformat.size.smaller"@)
    } else if title == "Title Case"@ {
        Some("textformat"@)
    } else if title == "Toggle Case"@ {
        Some("arrow.up.arrow.down"@)
    } else if title == "Format Selection"@ {
        Some("globe.asia.australia"@)
    } else if title == "Format Entire File"@ {
        Some("doc.text.magnifyingglass"@)
    } else if title == "Remove Trailing Spaces"@ {
        Some("eraser"@)
    } else if title == "Collapse Blank Lines"@ {
        Some("rectangle.compress.vertical"@)
    } else if title == "Clean Up Unused Images..."@ {
        Some("photo.badge.minus"@)
    } else {
        None
    }
}

fn format_icon_for(title: &str) -> (r: Option<&'static str>)
    ensures
        match r {
            Some(icon) => format_icon(title@) == Some(icon@),
            None => format_icon(title@) is None,
        },
{
    if same_text(title, "Bold") {
        Some("bold")
    } else if same_text(title, "Italic") {
        Some("italic")
    } else if same_text(title, "Underline") {
        Some("underline")
    } else if same_text(title, "Strikethrough") {
        Some("strikethrough")
    } else if same_text(title, "Inline Code") {
        Some("chevron.left.forwardslash.chevron.right")
    } else if same_text(title, "Highlight") {
        Some("highlighter")
    } else if same_text(title, "Subscript") {
        Some("textformat.subscript")
    } else if same_text(title, "Superscript") {
        Some("textformat.superscript")
    } else if same_text(title, "Clear Format") {
        Some("paintbrush")
    } else if same_text(title, "Heading 1") {
        Some("1.circle")
    } else if same_text(title, "Heading 2") {
        Some("2.circle")
    } else if same_text(title, "Heading 3") {
        Some("3.circle")
    } else if same_text(title, "Heading 4") {
        Some("4.circle")
    } else if same_text(title, "Heading 5") {
        Some("5.circle")
    } else if same_text(title, "Heading 6") {
        Some("6.circle")
    } else if same_text(title, "Paragraph") {
        Some("paragraph")
    } else if same_text(title, "Increase Heading Level") {
        Some("plus.circle")
    } else if same_text(title, "Decrease Heading Level") {
        Some("minus.circle")
    } else if same_text(title, "Ordered List") {
        Some("list.number")
    } else if same_text(title, "Unordered List") {
        Some("list.bullet")
    } else if same_text(title, "Task List") {
        Some("checklist")
    } else if same_text(title, "Indent") {
        Some("increase.indent")
    } else if same_text(title, "Outdent") {
        Some("decrease.indent")
    } else if same_text(title, "Remove List") {
        Some("xmark.circle")
    } else if same_text(title, "Quote") {
        Some("text.quote")
    } else if same_text(title, "Nest Quote") {
        Some("increase.indent")
    } else if same_text(title, "Unnest Quote") {
        Some("decrease.indent")
    } else if same_text(title, "UPPERCASE") {
        Some("textformat.size.larger")
    } else if same_text(title, "lowercase") {
        Some("textformat.size.smaller")
    } else if same_text(title, "Title Case") {
        Some("textformat")
    } else if same_text(title, "Toggle Case") {
        Some("arrow.up.arrow.down")
    } else if same_text(title, "Format Selection") {
        Some("globe.asia.australia")
    } else if same_text(title, "Format Entire File") {
        Some("doc.text.magnifyingglass")
    } else if same_text(title, "Remove Trailing Spaces") {
        Some("eraser")
    } else if same_text(title, "Collapse Blank Lines") {
        Some("rectangle.compress.vertical")
    } else if same_text(title, "Clean Up Unused Images...") {
        Some("photo.badge.minus")
    } else {
        None
    }
}

/// The symbols of the items of the Insert menu.
pub open spec fn insert_icon(title: Seq<char>) -> Option<Seq<char>> {
    if title == "Link"@ {
        Some("link"@)
    } else if title == "Wiki Link"@ {
        Some("link.badge.plus"@)
    } else if title == "Bookmark"@ {
        Some("bookmark"@)
    } else if title == "Image..."@ {
        Some("photo"@)
    } else if title == "Insert Table"@ {
        Some("tablecells"@)
    } else if title == "Code Block"@ {
        Some("curlybraces"@)
    } else if title == "Math Block"@ {
        Some("function"@)
    } else if title == "Diagram"@ {
        Some("chart.xyaxis.line"@)
    } else if title == "Horizontal Line"@ {
        Some("minus"@)
    } else if title == "Footnote"@ {
        Some("note.text"@)
    } else if title == "Collapsible Block"@ {
        Some("chevron.down.square"@)
    } else if title == "Add Row Above"@ {
        Some("arrow.up.to.line"@)
    } else if title == "Add Row Below"@ {
        Some("arrow.down.to.line"@)
    } else if title == "Add Column Before"@ {
        Some("arrow.left.to.line"@)
    } else if title == "Add Column After"@ {
        Some("arrow.right.to.line"@)
    } else if title == "Delete Row"@ {
        Some("minus.rectangle"@)
    } else if title == "Delete Column"@ {
        Some("minus.rectangle.portrait"@)
    } else if title == "Delete Table"@ {
        Some("trash"@)
    } else if title == "Align Left"@ {
        Some("text.alignleft"@)
    } else if title == "Align Center"@ {
        Some("text.aligncenter"@)
    } else if title == "Align Right"@ {
        Some("text.alignright"@)
    } else if title == "Align All Left"@ {
        Some("text.alignleft"@)
    } else if title == "Align All Center"@ {
        Some("text.aligncenter"@)
    } else if title == "Align All Right"@ {
        Some("text.alignright"@)
    } else if title == "Format Table"@ {
        Some("wand.and.stars"@)
    } else if title == "Note"@ {
        Some("note.text"@)
    } else if title == "Tip"@ {
        Some("lightbulb"@)
    } else if title == "Important"@ {
        Some("exclamationmark.circle"@)
    } else if title == "Warning"@ {
        Some("exclamationmark.triangle"@)
    } else if title == "Caution"@ {
        Some("flame"@)
    } else {
        None
    }
}

fn insert_icon_for(title: &str) -> (r: Option<&'static str>)
    ensures
        match r {
            Some(icon) => insert_icon(title@) == Some(icon@),
            None => insert_icon(title@) is None,
        },
{
    if same_text(title, "Link") {
        Some("link")
    } else if same_text(title, "Wiki Link") {
        Some("link.badge.plus")
    } else if same_text(title, "Bookmark") {
        Some("bookmark")
    } else if same_text(title, "Image...") {
        Some("photo")
    } else if same_text(title, "Insert Table") {
        Some("tablecells")
    } else if same_text(title, "Code Block") {
        Some("curlybraces")
    } else if same_text(title, "Math Block") {
        Some("function")
    } else if same_text(title, "Diagram") {
        Some("chart.xyaxis.line")
    } else if same_text(title, "Horizontal Line") {
        Some("minus")
    } else if same_text(title, "Footnote") {
        Some("note.text")
    } else if same_text(title, "Collapsible Block") {
        Some("chevron.down.square")
    } else if same_text(title, "Add Row Above") {
        Some("arrow.up.to.line")
    } else if same_text(title, "Add Row Below") {
        Some("arrow.down.to.line")
    } else if same_text(title, "Add Column Before") {
        Some("arrow.left.to.line")
    } else if same_text(title, "Add Column After") {
        Some("arrow.right.to.line")
    } else if same_text(title, "Delete Row") {
        Some("minus.rectangle")
    } else if same_text(title, "Delete Column") {
        Some("minus.rectangle.portrait")
    } else if same_text(title, "Delete Table") {
        Some("trash")
    } else if same_text(title, "Align Left") {
        Some("text.alignleft")
    } else if same_text(title, "Align Center") {
        Some("text.aligncenter")
    } else if same_text(title, "Align Right") {
        Some("text.alignright")
    } else if same_text(title, "Align All Left") {
        Some("text.alignleft")
    } else if same_text(title, "Align All Center") {
        Some("text.aligncenter")
    } else if same_text(title, "Align All Right") {
        Some("text.alignright")
    } else if same_text(title, "Format Table") {
        Some("wand.and.stars")
    } else if same_text(title, "Note") {
        Some("note.text")
    } else if same_text(title, "Tip") {
        Some("lightbulb")
    } else if same_text(title, "Important") {
        Some("exclamationmark.circle")
    } else if same_text(title, "Warning") {
        Some("exclamationmark.triangle")
    } else if same_text(title, "Caution") {
        Some("flame")
    } else {
        None
    }
}

/// The symbols of the items of the View menu.
pub open spec fn view_icon(title: Seq<char>) -> Option<Seq<char>> {
    if title == "Source Code Mode"@ {
        Some("chevron.left.forwardslash.chevron.right"@)
    } else if title == "Focus Mode"@ {
        Some("eye"@)
    } else if title == "Typewriter Mode"@ {
        Some("character.cursor.ibeam"@)
    } else if title == "Actual Size"@ {
        Some("1.magnifyingglass"@)
    } else if title == "Zoom In"@ {
        Some("plus.magnifyingglass"@)
    } else if title == "Zoom Out"@ {
        Some("minus.magnifyingglass"@)
    } else if title == "Toggle Word Wrap"@ {
        Some("arrow.right.to.line"@)
    } else if title == "Toggle Line Numbers"@ {
        Some("number"@)
    } else if title == "Toggle Diagram Preview"@ {
        Some("eye.square"@)
    } else if title == "Toggle Sidebar"@ {
        Some("sidebar.left"@)
    } else if title == "Toggle Outline"@ {
        Some("list.bullet.indent"@)
    } else if title == "Toggle Terminal"@ {
        Some("terminal"@)
    } else if title == "Enter Full Screen"@ {
        Some("arrow.up.left.and.arrow.down.right"@)
    } else {
        None
    }
}

fn view_icon_for(title: &str) -> (r: Option<&'static str>)
    ensures
        match r {
            Some(icon) => view_icon(title@) == Some(icon@),
            None => view_icon(title@) is None,
        },
{
    if same_text(title, "Source Code Mode") {
        Some("chevron.left.forwardslash.chevron.right")
    } else if same_text(title, "Focus Mode") {
        Some("eye")
    } else if same_text(title, "Typewriter Mode") {
        Some("character.cursor.ibeam")
    } else if same_text(title, "Actual Size") {
        Some("1.magnifyingglass")
    } else if same_text(title, "Zoom In") {
        Some("plus.magnifyingglass")
    } else if same_text(title, "Zoom Out") {
        Some("minus.magnifyingglass")
    } else if same_text(title, "Toggle Word Wrap") {
        Some("arrow.right.to.line")
    } else if same_text(title, "Toggle Line Numbers") {
        Some("number")
    } else if same_text(title, "Toggle Diagram Preview") {
        Some("eye.square")
    } else if same_text(title, "Toggle Sidebar") {
        Some("sidebar.left")
    } else if same_text(title, "Toggle Outline") {
        Some("list.bullet.indent")
    } else if same_text(title, "Toggle Terminal") {
        Some("terminal")
    } else if same_text(title, "Enter Full Screen") {
        Some("arrow.up.left.and.arrow.down.right")
    } else {
        None
    }
}

/// The symbols of the items of the Window menu.
pub open spec fn window_icon(title: Seq<char>) -> Option<Seq<char>> {
    if title == "Minimize"@ {
        Some("minus.square"@)
    } else if title == "Zoom"@ {
        Some("arrow.up.left.and.arrow.down.right"@)
    } else if title == "Maximize"@ {
        Some("arrow.up.left.and.arrow.down.right"@)
    } else if title == "Bring All to Front"@ {
        Some("macwindow.on.rectangle"@)
    } else {
        None
    }
}

fn window_icon_for(title: &str) -> (r: Option<&'static str>)
    ensures
        match r {
            Some(icon) => window_icon(title@) == Some(icon@),
            None => window_icon(title@) is None,
        },
{
    if same_text(title, "Minimize") {
        Some("minus.square")
    } else if same_text(title, "Zoom") {
        Some("arrow.up.left.and.arrow.down.right")
    } else if same_text(title, "Maximize") {
        Some("arrow.up.left.and.arrow.down.right")
    } else if same_text(title, "Bring All to Front") {
        Some("macwindow.on.rectangle")
    } else {
        None
    }
}

/// The symbols of the items of the Help menu.
pub open spec fn help_icon(title: Seq<char>) -> Option<Seq<char>> {
    if title == "VMark Help"@ {
        Some("questionmark.circle"@)
    } else if title == "Keyboard Shortcuts"@ {
        Some("keyboard"@)
    } else if title == "Report an Issue..."@ {
        Some("exclamationmark.bubble"@)
    } else {
        None
    }
}

fn help_icon_for(title: &str) -> (r: Option<&'static str>)
    ensures
        match r {
            Some(icon) => help_icon(title@) == Some(icon@),
            None => help_icon(title@) is None,
        },
{
    if same_text(title, "VMark Help") {
        Some("questionmark.circle")
    } else if same_text(title, "Keyboard Shortcuts") {
        Some("keyboard")
    } else if same_text(title, "Report an Issue...") {
        Some("exclamationmark.bubble")
    } else {
        None
    }
}

/// The symbols of the items of the Genies menu.
pub open spec fn genies_icon(title: Seq<char>) -> Option<Seq<char>> {
    if title == "Search Genies\u{2026}"@ {
        Some("sparkles"@)
    } else if title == "No Genies"@ {
        Some("sparkles"@)
    } else if title == "Reload Genies"@ {
        Some("arrow.clockwise"@)
    } else if title == "Open Genies Folder"@ {
        Some("folder"@)
    } else {
        None
    }
}

fn genies_icon_for(title: &str) -> (r: Option<&'static str>)
    ensures
        match r {
            Some(icon) => genies_icon(title@) == Some(icon@),
            None => genies_icon(title@) is None,
        },
{
    if same_text(title, "Search Genies\u{2026}") {
        Some("sparkles")
    } else if same_text(title, "No Genies") {
        Some("sparkles")
    } else if same_text(title, "Reload Genies") {
        Some("arrow.clockwise")
    } else if same_text(title, "Open Genies Folder") {
        Some("folder")
    } else {
        None
    }
}

/// The symbol listed for the item with this title. The menus are looked
/// through in their order.
pub open spec fn listed_icon(title: Seq<char>) -> Option<Seq<char>> {
    if app_icon(title) is Some {
        app_icon(title)
    } else if file_icon(title) is Some {
        file_icon(title)
    } else if edit_icon(title) is Some {
        edit_icon(title)
    } else if format_icon(title) is Some {
        format_icon(title)
    } else if insert_icon(title) is Some {
        insert_icon(title)
    } else if view_icon(title) is Some {
        view_icon(title)
    } else if window_icon(title) is Some {
        window_icon(title)
    } else if help_icon(title) is Some {
        help_icon(title)
    } else {
        genies_icon(title)
    }
}

/// The symbol of the item with this title, where one is listed for it
/// and is not empty.
pub open spec fn icon_of(title: Seq<char>) -> Option<Seq<char>> {
    match listed_icon(title) {
        Some(icon) => if icon.len() > 0 {
            Some(icon)
        } else {
            None
        },
        None => None,
    }
}

/// Looks up the symbol of a menu item by its title.
pub fn icon_for_title(title: &str) -> (r: Option<&'static str>)
    ensures
        match r {
            Some(icon) => icon_of(title@) == Some(icon@),
            None => icon_of(title@) is None,
        },
{
    let found = app_icon_for(title);
    let found = match found {
        Some(icon) => Some(icon),
        None => file_icon_for(title),
    };
    let found = match found {
        Some(icon) => Some(icon),
        None => edit_icon_for(title),
    };
    let found = match found {
        Some(icon) => Some(icon),
        None => format_icon_for(title),
    };
    let found = match found {
        Some(icon) => Some(icon),
        None => insert_icon_for(title),
    };
    let found = match found {
        Some(icon) => Some(icon),
        None => view_icon_for(title),
    };
    let found = match found {
        Some(icon) => Some(icon),
        None => window_icon_for(title),
    };
    let found = match found {
        Some(icon) => Some(icon),
        None => help_icon_for(title),
    };
    let found = match found {
        Some(icon) => Some(icon),
        None => genies_icon_for(title),
    };
    match found {
        Some(icon) => {
            if icon.is_empty() {
                None
            } else {
                Some(icon)
            }
        },
        None => None,
    }
}

/// The symbol that the item with this title carries: its own, or the
/// fallback.
pub open spec fn symbol_of(title: Seq<char>) -> Seq<char> {
    match icon_of(title) {
        Some(icon) => icon,
        None => FALLBACK_ICON@,
    }
}

/// The symbol for a menu item.
pub fn symbol_for_title(title: &str) -> (symbol: &'static str)
    ensures
        symbol@ == symbol_of(title@),
{
    match icon_for_title(title) {
        Some(icon) => icon,
        None => FALLBACK_ICON,
    }
}

/// What is done with one item while the menus are walked.
#[derive(Debug, Clone, Copy, PartialEq, Eq, Structural)]
pub enum ItemAction {
    /// Leave the item as it is.
    Skip,
    /// Walk the submenu of the item; the item itself gets no symbol.
    Descend,
    /// Give the item its symbol.
    SetIcon,
}

/// Decides what is done with an item: separators and items that have an
/// image already are left alone, submenus are walked, and every other
/// item gets its symbol.
pub fn item_action(is_separator: bool, has_submenu: bool, has_image: bool) -> (action: ItemAction)
    ensures
        action == if is_separator {
            ItemAction::Skip
        } else if has_submenu {
            ItemAction::Descend
        } else if has_image {
            ItemAction::Skip
        } else {
            ItemAction::SetIcon
        },
{
    if is_separator {
        ItemAction::Skip
    } else if has_submenu {
        ItemAction::Descend
    } else if has_image {
        ItemAction::Skip
    } else {
        ItemAction::SetIcon
    }
}

} // verus!
