use console_ui::context_menu::{
    context_menu_rows, item_at, layout, ContextMenu, ContextMenuItem, MenuLayout,
    RowBackground, RowForeground,
};
use console_ui::geometry::Rect;

fn menu(items: &[(&str, bool)], anchor: (u16, u16), selected: usize) -> ContextMenu {
    ContextMenu {
        title: "Process".to_string(),
        items: items
            .iter()
            .map(|(label, enabled)| ContextMenuItem { label: label.to_string(), enabled: *enabled })
            .collect(),
        anchor_x: anchor.0,
        anchor_y: anchor.1,
        selected,
        hovered: None,
    }
}

#[test]
fn context_menu_is_moved_back_onto_the_screen() {
    let screen = Rect { x: 0, y: 0, width: 80, height: 24 };
    let m = menu(&[("Kill", true), ("Suspend", false), ("Copy name", true)], (75, 22), 0);
    assert_eq!(
        layout(screen, &m),
        MenuLayout {
            area: Rect { x: 55, y: 19, width: 25, height: 5 },
            content: Rect { x: 56, y: 20, width: 23, height: 3 },
            offset: 0,
        }
    );
    let small = menu(&[("Kill", true)], (3, 4), 0);
    assert_eq!(layout(screen, &small).area, Rect { x: 3, y: 4, width: 9, height: 3 });
}

#[test]
fn context_menu_width_is_capped() {
    let screen = Rect { x: 0, y: 0, width: 200, height: 50 };
    let label = "y".repeat(150);
    let m = menu(&[(label.as_str(), true)], (0, 0), 0);
    assert_eq!(layout(screen, &m).area.width, 88);
    let narrow = Rect { x: 0, y: 0, width: 20, height: 50 };
    assert_eq!(layout(narrow, &m).area.width, 20);
}

#[test]
fn context_menu_scrolls_to_the_selection_and_hits_items() {
    let screen = Rect { x: 0, y: 0, width: 80, height: 6 };
    let labels: Vec<String> = (0..10).map(|i| format!("Item {i}")).collect();
    let items: Vec<(&str, bool)> = labels.iter().map(|l| (l.as_str(), true)).collect();
    let m = menu(&items, (0, 0), 7);
    let l = layout(screen, &m);
    assert_eq!(l.content.height, 4);
    assert_eq!(l.offset, 4);
    assert_eq!(item_at(screen, &m, l.content.x, l.content.y), Some(4));
    assert_eq!(item_at(screen, &m, l.content.x, l.content.y + 3), Some(7));
    assert_eq!(item_at(screen, &m, l.area.x, l.content.y), None);
    let rows = context_menu_rows(&l, &m);
    assert_eq!(rows.len(), 4);
    let first: String = rows[3].text.iter().collect();
    assert_eq!(first, "> Item 7");
}

#[test]
fn context_menu_rows_mark_selection_hover_and_unavailable_items() {
    let screen = Rect { x: 0, y: 0, width: 80, height: 24 };
    let mut m = menu(&[("Kill", true), ("Suspend", false), ("Copy name", true)], (75, 22), 0);
    m.hovered = Some(2);
    let l = layout(screen, &m);
    assert_eq!(item_at(screen, &m, 56, 20), Some(0));
    assert_eq!(item_at(screen, &m, 56, 22), Some(2));
    assert_eq!(item_at(screen, &m, 55, 20), None);
    let rows = context_menu_rows(&l, &m);
    let texts: Vec<String> = rows.iter().map(|r| r.text.iter().collect()).collect();
    assert_eq!(texts, ["> Kill", "  Suspend (unavailable)", "  Copy name"]);
    assert_eq!(rows[0].bg, RowBackground::SelectionSurface);
    assert!(rows[0].bold);
    assert_eq!(rows[1].fg, RowForeground::Muted);
    assert_eq!(rows[1].bg, RowBackground::PanelAlt);
    assert!(!rows[1].bold);
    assert_eq!(rows[2].bg, RowBackground::FocusSurface);
    assert!(rows[2].bold);
}
