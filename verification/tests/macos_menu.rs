use vmark::macos_menu::{icon_for_title, item_action, symbol_for_title, ItemAction, FALLBACK_ICON};

const MENU_ICONS: &[(&str, &str)] = &[
    // App menu
    ("About VMark", "info.circle"),
    ("Settings...", "gearshape"),
    ("Hide VMark", "eye.slash"),
    ("Hide Others", "eye.slash.circle"),
    ("Show All", "eye"),
    ("Save All and Quit", "rectangle.portrait.and.arrow.right"),
    ("Save All and Exit", "rectangle.portrait.and.arrow.right"),
    ("Quit VMark", "power"),
    ("Exit", "power"),
    // File menu
    ("New", "doc.badge.plus"),
    ("New Window", "macwindow.badge.plus"),
    ("Open...", "folder"),
    ("Open Folder...", "folder.badge.gearshape"),
    ("Close", "xmark"),
    ("Close Workspace", "xmark.square"),
    ("Save", "arrow.down.doc"),
    ("Save As...", "arrow.down.doc.fill"),
    ("Move to...", "folder.badge.questionmark"),
    ("HTML...", "doc.richtext"),
    ("Print...", "printer"),
    ("Copy as HTML", "doc.text"),
    ("View History...", "clock"),
    ("Clear History...", "clock.badge.xmark"),
    ("Clear Recent Files", "trash"),
    ("Clear Recent Workspaces", "trash"),
    // Edit menu
    ("Undo", "arrow.uturn.backward"),
    ("Redo", "arrow.uturn.forward"),
    ("Cut", "scissors"),
    ("Copy", "doc.on.doc"),
    ("Paste", "doc.on.clipboard"),
    ("Select All", "checkmark.square"),
    ("Find and Replace...", "magnifyingglass"),
    ("Find Next", "chevron.down"),
    ("Find Previous", "chevron.up"),
    ("Use Selection for Find", "text.magnifyingglass"),
    ("Select Word", "textformat.abc"),
    ("Select Line", "arrow.left.and.line.vertical.and.arrow.right"),
    ("Select Block", "rectangle.dashed"),
    ("Expand Selection", "arrow.up.left.and.arrow.down.right"),
    ("Move Line Up", "arrow.up"),
    ("Move Line Down", "arrow.down"),
    ("Duplicate Line", "plus.square.on.square"),
    ("Delete Line", "trash"),
    ("Join Lines", "text.justify"),
    ("Remove Blank Lines", "line.3.horizontal.decrease"),
    ("Sort Lines Ascending", "arrow.up.right"),
    ("Sort Lines Descending", "arrow.down.right"),
    ("Convert to LF", "l.circle"),
    ("Convert to CRLF", "c.circle"),
    // Format menu
    ("Bold", "bold"),
    ("Italic", "italic"),
    ("Underline", "underline"),
    ("Strikethrough", "strikethrough"),
    ("Inline Code", "chevron.left.forwardslash.chevron.right"),
    ("Highlight", "highlighter"),
    ("Subscript", "textformat.subscript"),
    ("Superscript", "textformat.superscript"),
    ("Clear Format", "paintbrush"),
    ("Heading 1", "1.circle"),
    ("Heading 2", "2.circle"),
    ("Heading 3", "3.circle"),
    ("Heading 4", "4.circle"),
    ("Heading 5", "5.circle"),
    ("Heading 6", "6.circle"),
    ("Paragraph", "paragraph"),
    ("Increase Heading Level", "plus.circle"),
    ("Decrease Heading Level", "minus.circle"),
    ("Ordered List", "list.number"),
    ("Unordered List", "list.bullet"),
    ("Task List", "checklist"),
    ("Indent", "increase.indent"),
    ("Outdent", "decrease.indent"),
    ("Remove List", "xmark.circle"),
    ("Quote", "text.quote"),
    ("Nest Quote", "increase.indent"),
    ("Unnest Quote", "decrease.indent"),
    ("UPPERCASE", "textformat.size.larger"),
    ("lowercase", "textformat.size.smaller"),
    ("Title Case", "textformat"),
    ("Toggle Case", "arrow.up.arrow.down"),
    ("Format Selection", "globe.asia.australia"),
    ("Format Entire File", "doc.text.magnifyingglass"),
    ("Remove Trailing Spaces", "eraser"),
    ("Collapse Blank Lines", "rectangle.compress.vertical"),
    ("Clean Up Unused Images...", "photo.badge.minus"),
    // Insert menu
    ("Link", "link"),
    ("Wiki Link", "link.badge.plus"),
    ("Bookmark", "bookmark"),
    ("Image...", "photo"),
    ("Insert Table", "tablecells"),
    ("Code Block", "curlybraces"),
    ("Math Block", "function"),
    ("Diagram", "chart.xyaxis.line"),
    ("Horizontal Line", "minus"),
    ("Footnote", "note.text"),
    ("Collapsible Block", "chevron.down.square"),
    ("Add Row Above", "arrow.up.to.line"),
    ("Add Row Below", "arrow.down.to.line"),
    ("Add Column Before", "arrow.left.to.line"),
    ("Add Column After", "arrow.right.to.line"),
    ("Delete Row", "minus.rectangle"),
    ("Delete Column", "minus.rectangle.portrait"),
    ("Delete Table", "trash"),
    ("Align Left", "text.alignleft"),
    ("Align Center", "text.aligncenter"),
    ("Align Right", "text.alignright"),
    ("Align All Left", "text.alignleft"),
    ("Align All Center", "text.aligncenter"),
    ("Align All Right", "text.alignright"),
    ("Format Table", "wand.and.stars"),
    ("Note", "note.text"),
    ("Tip", "lightbulb"),
    ("Important", "exclamationmark.circle"),
    ("Warning", "exclamationmark.triangle"),
    ("Caution", "flame"),
    // View menu
    ("Source Code Mode", "chevron.left.forwardslash.chevron.right"),
    ("Focus Mode", "eye"),
    ("Typewriter Mode", "character.cursor.ibeam"),
    ("Actual Size", "1.magnifyingglass"),
    ("Zoom In", "plus.magnifyingglass"),
    ("Zoom Out", "minus.magnifyingglass"),
    ("Toggle Word Wrap", "arrow.right.to.line"),
    ("Toggle Line Numbers", "number"),
    ("Toggle Diagram Preview", "eye.square"),
    ("Toggle Sidebar", "sidebar.left"),
    ("Toggle Outline", "list.bullet.indent"),
    ("Toggle Terminal", "terminal"),
    ("Enter Full Screen", "arrow.up.left.and.arrow.down.right"),
    // Window menu
    ("Minimize", "minus.square"),
    ("Zoom", "arrow.up.left.and.arrow.down.right"),
    ("Maximize", "arrow.up.left.and.arrow.down.right"),
    ("Bring All to Front", "macwindow.on.rectangle"),
    // Help menu
    ("VMark Help", "questionmark.circle"),
    ("Keyboard Shortcuts", "keyboard"),
    ("Report an Issue...", "exclamationmark.bubble"),
    // Genies menu
    ("Search Genies\u{2026}", "sparkles"),
    ("No Genies", "sparkles"),
    ("Reload Genies", "arrow.clockwise"),
    ("Open Genies Folder", "folder"),
];

#[test]
fn every_listed_item_has_its_symbol() {
    assert_eq!(MENU_ICONS.len(), 139);
    for (title, icon) in MENU_ICONS {
        assert_eq!(icon_for_title(title), Some(*icon), "{}", title);
        assert_eq!(symbol_for_title(title), *icon, "{}", title);
    }
}

#[test]
fn other_items_carry_the_fallback() {
    assert_eq!(FALLBACK_ICON, "sparkles");
    for title in ["", "new", "New ", " New", "Polish my text", "Settings", "Search Genies..."] {
        assert_eq!(icon_for_title(title), None, "{:?}", title);
        assert_eq!(symbol_for_title(title), "sparkles");
    }
    assert_eq!(icon_for_title("Search Genies\u{2026}"), Some("sparkles"));
}

#[test]
fn only_plain_items_get_a_symbol() {
    assert_eq!(item_action(false, false, false), ItemAction::SetIcon);
    assert_eq!(item_action(false, false, true), ItemAction::Skip);
    assert_eq!(item_action(false, true, false), ItemAction::Descend);
    assert_eq!(item_action(false, true, true), ItemAction::Descend);
    for has_submenu in [false, true] {
        for has_image in [false, true] {
            assert_eq!(item_action(true, has_submenu, has_image), ItemAction::Skip);
        }
    }
}
