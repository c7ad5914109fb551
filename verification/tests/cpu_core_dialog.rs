use console_ui::cpu_cores::{cpu_core_line, CpuCoreKind, CpuLogicalProcessorSample};

#[test]
fn logical_cpu_row_uses_index_kind_and_percent() {
    let line = cpu_core_line(
        7,
        2,
        CpuLogicalProcessorSample {
            usage_percent: 42,
            kind: Some(CpuCoreKind::Efficiency),
        },
    );
    let text = line
        .iter()
        .flat_map(|piece| piece.text.iter())
        .collect::<String>();

    assert_eq!(text, "CPU  7 (E)   42%");
}
