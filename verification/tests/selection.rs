use bustd::error::Error;
use bustd::kill::choose_victim;
use bustd::process::{is_untouchable, Process};

fn proc(pid: u32, comm: &str, oom_score: u32, oom_score_adj: i32, vm_rss_kib: u64) -> Process {
    Process { pid, comm: comm.to_string(), oom_score, oom_score_adj, vm_rss_kib }
}

#[test]
fn untouchable_excluded_and_rss_breaks_tie() {
    let table = vec![
        proc(5, "a", 500, 0, 1000),
        proc(6, "qemu-system-x86_64", 900, 0, 5000),
        proc(7, "b", 500, 0, 2000),
    ];
    let victim = choose_victim(&table).unwrap();
    assert_eq!(victim.pid, 7);
    assert_eq!(victim.comm, "b");
    assert_eq!(victim.oom_score, 500);
    assert_eq!(victim.vm_rss_kib, 2000);
}

#[test]
fn exempt_process_never_selected_even_with_top_score() {
    let table = vec![proc(9, "hog", 1000, -1000, 999_999)];
    let r = choose_victim(&table);
    assert!(matches!(r, Err(Error::ProcessNotFound(_))));
}

#[test]
fn all_ineligible_yields_not_found() {
    let table = vec![
        proc(4, "emerge", 800, 0, 4000),
        proc(5, "kthread", 700, 0, 0),
        proc(6, "critical", 900, -1000, 3000),
    ];
    let r = choose_victim(&table);
    assert!(matches!(r, Err(Error::ProcessNotFound(_))));
}

#[test]
fn victim_is_eligible_and_has_maximum_score() {
    let table = vec![
        proc(10, "x", 100, 0, 500),
        proc(11, "qemu-system-x86", 950, 0, 500),
        proc(12, "y", 300, 0, 100),
        proc(13, "z", 300, -1000, 9000),
        proc(14, "w", 250, 0, 0),
    ];
    let victim = choose_victim(&table).unwrap();
    assert_eq!(victim.pid, 12);
    assert!(victim.vm_rss_kib > 0);
    assert_ne!(victim.oom_score_adj, -1000);
    assert!(!is_untouchable(&victim.comm));
    for p in &table {
        if p.pid > 1
            && !is_untouchable(&p.comm)
            && p.vm_rss_kib > 0
            && p.oom_score_adj != -1000
        {
            assert!(p.oom_score <= victim.oom_score);
        }
    }
}

#[test]
fn selection_is_idempotent() {
    let table = vec![
        proc(21, "a", 10, 0, 64),
        proc(22, "b", 42, 0, 64),
        proc(23, "c", 42, 0, 32),
    ];
    let first = choose_victim(&table).unwrap();
    let second = choose_victim(&table).unwrap();
    assert_eq!(first.pid, second.pid);
    assert_eq!(first.comm, second.comm);
    assert_eq!(first.oom_score, second.oom_score);
    assert_eq!(first.oom_score_adj, second.oom_score_adj);
    assert_eq!(first.vm_rss_kib, second.vm_rss_kib);
}

#[test]
fn exact_tie_keeps_first_seen() {
    let table = vec![proc(31, "a", 50, 0, 700), proc(32, "b", 50, 0, 700)];
    let victim = choose_victim(&table).unwrap();
    assert_eq!(victim.pid, 31);
}

#[test]
fn higher_score_displaces_bigger_rss() {
    let table = vec![proc(41, "a", 50, 0, 9000), proc(42, "b", 51, 0, 10)];
    let victim = choose_victim(&table).unwrap();
    assert_eq!(victim.pid, 42);
}

#[test]
fn init_and_idle_pids_are_ignored() {
    let table = vec![proc(1, "init", 2000, 0, 5000), proc(0, "idle", 2000, 0, 5000)];
    let r = choose_victim(&table);
    assert!(matches!(r, Err(Error::ProcessNotFound(_))));
}

#[test]
fn empty_table_yields_not_found() {
    let table: Vec<Process> = Vec::new();
    assert!(matches!(choose_victim(&table), Err(Error::ProcessNotFound(_))));
}

#[test]
fn every_untouchable_name_is_matched() {
    assert!(is_untouchable(&"qemu-system-x86_64".to_string()));
    assert!(is_untouchable(&"qemu-system-x86".to_string()));
    assert!(is_untouchable(&"emerge".to_string()));
    assert!(!is_untouchable(&"qemu".to_string()));
    assert!(!is_untouchable(&"bash".to_string()));
    assert!(!is_untouchable(&"".to_string()));
}

#[test]
fn kernel_thread_with_top_score_is_skipped() {
    let table = vec![proc(51, "kworker", 999, 0, 0), proc(52, "small", 1, 0, 8)];
    let victim = choose_victim(&table).unwrap();
    assert_eq!(victim.pid, 52);
}
