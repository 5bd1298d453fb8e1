use prof::report::{
    cache_from_captures, cache_summary, heap_from_captures, heap_summary, leak_summary,
    ReportError, Section,
};
use prof::types::{HeapSummary, LeakSummary};
use prof::utils::{Capture, FieldWarning};

const MEMCHECK: &str = "==4242== Memcheck, a memory error detector
==4242== 
==4242== HEAP SUMMARY:
==4242==     in use at exit: 1,024 bytes in 2 blocks
==4242==   total heap usage: 10 allocs, 8 frees, 100,000 bytes allocated
==4242== 
==4242== LEAK SUMMARY:
==4242==    definitely lost: 1,024 bytes in 1 blocks
==4242==    indirectly lost: 2,048 bytes in 2 blocks
==4242==      possibly lost: 4,096 bytes in 3 blocks
==4242==    still reachable: 12,345,678 bytes in 4 blocks
==4242==         suppressed: 64 bytes in 5 blocks
==4242== 
==4242== ERROR SUMMARY: 0 errors from 0 contexts (suppressed: 0 from 0)
";

const CACHEGRIND: &str = "==77== I refs:        1,234,567
==77== I1  misses:        1,234
==77== LLi misses:        1,100
==77== I1  miss rate:      0.10%
==77== LLi miss rate:      0.09%
==77== 
==77== D1  miss rate:      1.25% (        1.1%     +        2.6%  )
==77== LLd miss rate:      0.75% (        0.4%     +        1.9%  )
==77== 
==77== LL miss rate:       0.33% (        0.2%     +        1.9%  )
";

const CACHEGRIND_REORDERED: &str = "==77== LL miss rate:       0.33% (  0.2% )
==77== LLd miss rate:      0.75% (  0.4% )
==77== D1  miss rate:      1.25% (  1.1% )
==77== LLi miss rate:      0.09%
==77== I1  miss rate:      0.10%
";

#[test]
fn heap_summary_of_well_formed_report() {
    let mut warnings: Vec<FieldWarning> = Vec::new();
    let heap = heap_summary(MEMCHECK, 0, &mut warnings).unwrap();
    assert_eq!(
        heap,
        HeapSummary {
            allocated_total: 100_000,
            frees: 8,
            allocations: 10,
            allocated_at_exit: 1024,
            blocks_at_exit: 2,
        }
    );
    assert!(warnings.is_empty());
}

#[test]
fn heap_summary_subtracts_runtime_offset() {
    let mut warnings: Vec<FieldWarning> = Vec::new();
    let heap = heap_summary(MEMCHECK, 2157, &mut warnings).unwrap();
    assert_eq!(heap.allocated_total, 97843);
    assert_eq!(heap.allocations, 10);
}

#[test]
fn heap_summary_offset_saturates() {
    let mut warnings: Vec<FieldWarning> = Vec::new();
    let heap = heap_summary(MEMCHECK, i64::MIN, &mut warnings).unwrap();
    assert_eq!(heap.allocated_total, i64::MAX);
}

#[test]
fn heap_summary_without_total_line_fails() {
    let report = "==1== HEAP SUMMARY:\n==1==     in use at exit: 0 bytes in 0 blocks\n";
    let mut warnings: Vec<FieldWarning> = Vec::new();
    let result = heap_summary(report, 0, &mut warnings);
    assert_eq!(result, Err(ReportError::SectionNotFound(Section::TotalHeapUsage)));
    assert!(warnings.is_empty());
}

#[test]
fn heap_summary_without_exit_line_fails_first() {
    let mut warnings: Vec<FieldWarning> = Vec::new();
    let result = heap_summary("nothing of the kind", 0, &mut warnings);
    assert_eq!(result, Err(ReportError::SectionNotFound(Section::InUseAtExit)));
}

#[test]
fn heap_summary_with_unparsable_total() {
    let report = "==1==     in use at exit: 0 bytes in 0 blocks\n\
                  total heap usage: 10 allocs, 10 frees, not_a_number bytes allocated";
    let mut warnings: Vec<FieldWarning> = Vec::new();
    let heap = heap_summary(report, 0, &mut warnings).unwrap();
    assert_eq!(heap.allocations, 10);
    assert_eq!(heap.frees, 10);
    assert_eq!(heap.allocated_total, 0);
    assert_eq!(warnings.len(), 1);
    assert_eq!(warnings[0].label, "total heap usage");
}

#[test]
fn heap_from_captures_reads_fields_by_position() {
    let exit = Capture::from_groups(vec![Some("whole".to_string()), Some("2,048".to_string())]);
    let total = Capture::from_groups(vec![
        Some("whole".to_string()),
        Some("3".to_string()),
        None,
        Some("5,000".to_string()),
    ]);
    let mut warnings: Vec<FieldWarning> = Vec::new();
    let heap = heap_from_captures(&exit, &total, 1000, &mut warnings);
    assert_eq!(
        heap,
        HeapSummary {
            allocated_total: 4000,
            frees: 0,
            allocations: 3,
            allocated_at_exit: 2048,
            blocks_at_exit: 0,
        }
    );
    let labels: Vec<&str> = warnings.iter().map(|w| w.label.as_str()).collect();
    assert_eq!(labels, vec!["in use at exit blocks", "heap frees"]);
}

#[test]
fn leak_summary_of_all_five_categories() {
    let mut warnings: Vec<FieldWarning> = Vec::new();
    let leak = leak_summary(MEMCHECK, &mut warnings).unwrap();
    assert_eq!(
        leak,
        LeakSummary {
            definitely_lost: 1024,
            indirectly_lost: 2048,
            possibly_lost: 4096,
            still_reachable: 12_345_678,
            supressed: 64,
            definitely_lost_blocks: 1,
            indrectly_lost_blocks: 2,
            possibly_lost_blocks: 3,
            still_reachable_blocks: 4,
            supressed_blocks: 5,
        }
    );
    assert!(warnings.is_empty());
}

#[test]
fn leak_summary_without_possibly_lost_fails() {
    let report = MEMCHECK.replace("possibly lost", "maybe lost");
    let mut warnings: Vec<FieldWarning> = Vec::new();
    assert_eq!(
        leak_summary(&report, &mut warnings),
        Err(ReportError::SectionNotFound(Section::PossiblyLost))
    );
}

#[test]
fn leak_summary_human_keeps_blocks() {
    let mut warnings: Vec<FieldWarning> = Vec::new();
    let human = leak_summary(MEMCHECK, &mut warnings).unwrap().to_human();
    assert_eq!(human.definitely_lost, "1KB");
    assert_eq!(human.indirectly_lost, "2KB");
    assert_eq!(human.possibly_lost, "4KB");
    assert_eq!(human.still_reachable, "11MB 792KB 334B");
    assert_eq!(human.supressed, "64B");
    assert_eq!(human.definitely_lost_blocks, 1);
    assert_eq!(human.indrectly_lost_blocks, 2);
    assert_eq!(human.possibly_lost_blocks, 3);
    assert_eq!(human.still_reachable_blocks, 4);
    assert_eq!(human.supressed_blocks, 5);
}

#[test]
fn heap_summary_human_formats_bytes_only() {
    let heap = HeapSummary {
        allocated_total: 1536,
        frees: 1536,
        allocations: 2048,
        allocated_at_exit: 0,
        blocks_at_exit: 4096,
    };
    let human = heap.to_human();
    assert_eq!(human.allocated_total, "1KB 512B");
    assert_eq!(human.allocated_at_exit, "0B");
    assert_eq!(human.frees, 1536);
    assert_eq!(human.allocations, 2048);
    assert_eq!(human.blocks_at_exit, 4096);
}

fn rate(text: &Option<String>) -> f64 {
    text.as_deref().unwrap().parse::<f64>().unwrap()
}

#[test]
fn cache_summary_reads_five_rates() {
    let rates = cache_summary(CACHEGRIND).unwrap();
    assert_eq!(rate(&rates.i1_miss), 0.10);
    assert_eq!(rate(&rates.l2i_miss), 0.09);
    assert_eq!(rate(&rates.d1_miss), 1.25);
    assert_eq!(rate(&rates.l2d_miss), 0.75);
    assert_eq!(rate(&rates.l2_miss), 0.33);
}

#[test]
fn cache_summary_ignores_line_order() {
    let a = cache_summary(CACHEGRIND).unwrap();
    let b = cache_summary(CACHEGRIND_REORDERED).unwrap();
    assert_eq!(a, b);
}

#[test]
fn cache_summary_without_d1_line_fails() {
    let report = CACHEGRIND.replace("D1  miss rate", "D1  misses");
    assert_eq!(
        cache_summary(&report),
        Err(ReportError::SectionNotFound(Section::D1MissRate))
    );
}

#[test]
fn cache_from_captures_takes_first_field() {
    let cap = |t: Option<&str>| Capture::from_groups(vec![Some("x".to_string()), t.map(|s| s.to_string())]);
    let rates = cache_from_captures(&cap(Some("1.5")), &cap(None), &cap(Some("2")), &cap(Some("")), &cap(Some("0.01")));
    assert_eq!(rates.i1_miss.as_deref(), Some("1.5"));
    assert_eq!(rates.l2i_miss, None);
    assert_eq!(rates.d1_miss.as_deref(), Some("2"));
    assert_eq!(rates.l2d_miss.as_deref(), Some(""));
    assert_eq!(rates.l2_miss.as_deref(), Some("0.01"));
}

#[test]
fn section_labels() {
    assert_eq!(Section::TotalHeapUsage.label(), "total heap usage");
    assert_eq!(Section::LlDataMissRate.label(), "LL/L2 data miss rate");
}
