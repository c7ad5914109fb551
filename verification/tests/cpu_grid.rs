use console_ui::cpu_cores::{
    cpu_core_dialog_grid, cpu_core_dialog_lines, cpu_core_dialog_modal,
    cpu_core_dialog_total_rows, footer_width, CellPiece, CellTone, CpuCoreKind,
    CpuLogicalProcessorSample,
};
use console_ui::header::AppActivity;

fn line_text(line: &[CellPiece]) -> String {
    line.iter().flat_map(|p| p.text.iter()).collect()
}

fn sample(usage_percent: u32, kind: Option<CpuCoreKind>) -> CpuLogicalProcessorSample {
    CpuLogicalProcessorSample { usage_percent, kind }
}

#[test]
fn footer_and_modal_widths() {
    assert_eq!(footer_width(), 56);
    let modal = cpu_core_dialog_modal(8);
    assert_eq!(modal.title, "PER-CORE CPU USAGE");
    assert_eq!(modal.content_width, 69);
    assert_eq!(modal.content_height, 1);
    assert_eq!(modal.footer_height, 1);
    assert_eq!(cpu_core_dialog_modal(0).content_width, 56);
    assert_eq!(cpu_core_dialog_modal(128).content_width, 4 * 17 + 9);
}

#[test]
fn grid_columns_follow_the_available_width() {
    let (modal, columns) = cpu_core_dialog_grid(8, 40);
    assert_eq!(columns, 2);
    assert_eq!(modal.content_height, 4);
    let (wide, columns) = cpu_core_dialog_grid(8, 200);
    assert_eq!(columns, 4);
    assert_eq!(wide.content_height, 2);
    let (_, one) = cpu_core_dialog_grid(8, 3);
    assert_eq!(one, 1);
    assert_eq!(cpu_core_dialog_total_rows(0, 40), 1);
    assert_eq!(cpu_core_dialog_total_rows(9, 40), 5);
}

#[test]
fn grid_lines_hold_every_core() {
    let cores = vec![
        sample(5, None),
        sample(150, Some(CpuCoreKind::Performance)),
        sample(42, Some(CpuCoreKind::Efficiency)),
    ];
    let lines = cpu_core_dialog_lines(&cores, 2, AppActivity::Live);
    assert_eq!(lines.len(), 2);
    assert_eq!(line_text(&lines[0]), "CPU 0 (-)    5%   CPU 1 (P)  100%");
    assert_eq!(line_text(&lines[1]), "CPU 2 (E)   42%");
    assert_eq!(lines[0][1].tone, CellTone::Muted);
}

#[test]
fn empty_grid_explains_itself() {
    let live = cpu_core_dialog_lines(&Vec::new(), 0, AppActivity::Live);
    assert_eq!(line_text(&live[0]), "Per-core usage is unavailable.");
    let log = cpu_core_dialog_lines(&Vec::new(), 1, AppActivity::LogView);
    assert_eq!(line_text(&log[0]), "Per-core usage is not recorded in logs.");
    assert_eq!(log[0][0].tone, CellTone::Muted);
}

#[test]
fn index_width_follows_the_core_count() {
    let cores: Vec<CpuLogicalProcessorSample> = (0..12).map(|_| sample(1, None)).collect();
    let lines = cpu_core_dialog_lines(&cores, 4, AppActivity::Live);
    assert_eq!(lines.len(), 3);
    assert!(line_text(&lines[0]).starts_with("CPU  0 (-)    1%"));
    assert!(line_text(&lines[2]).ends_with("CPU 11 (-)    1%"));
}
