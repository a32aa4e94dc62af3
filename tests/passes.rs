use std::path::PathBuf;
use shredder::passes::{Arguments, PassController, Step};

/// Runs a controller to the end, renaming to `moved1`, `moved2`, ... and recording
/// each step with the path it acts on.
fn trace(start: &str, passes: u32) -> Vec<(Step, String)> {
    let mut c = PassController::new(start.to_string(), passes);
    let mut out = Vec::new();
    let mut k = 0;
    loop {
        let step = c.next_step();
        out.push((step, c.current_path().clone()));
        match step {
            Step::Done => break,
            Step::Rename => {
                k += 1;
                c.complete_rename(format!("moved{}", k));
            }
            _ => c.complete_step(),
        }
    }
    out
}

#[test]
fn one_pass_renames_once_then_disposes() {
    let t = trace("a.txt", 1);
    assert_eq!(
        t,
        vec![
            (Step::Overwrite, "a.txt".to_string()),
            (Step::ScrubTimes, "a.txt".to_string()),
            (Step::Rename, "a.txt".to_string()),
            (Step::Dispose, "moved1".to_string()),
            (Step::Done, "moved1".to_string()),
        ]
    );
}

#[test]
fn three_passes_thread_the_path() {
    let t = trace("empty", 3);
    assert_eq!(t.len(), 11);
    let renames: Vec<&String> = t.iter().filter(|s| s.0 == Step::Rename).map(|s| &s.1).collect();
    assert_eq!(renames, vec!["empty", "moved1", "moved2"]);
    assert_eq!(t.iter().filter(|s| s.0 == Step::Dispose).count(), 1);
    assert_eq!(t[9], (Step::Dispose, "moved3".to_string()));
    assert_eq!(t[3], (Step::Overwrite, "moved1".to_string()));
    assert_eq!(t[6], (Step::Overwrite, "moved2".to_string()));
}

#[test]
fn zero_passes_dispose_original() {
    let t = trace("orig", 0);
    assert_eq!(
        t,
        vec![(Step::Dispose, "orig".to_string()), (Step::Done, "orig".to_string())]
    );
}

#[test]
fn arguments_start_a_run() {
    let args = Arguments { file_path: PathBuf::from("/tmp/x"), passes: 2 };
    let c = args.controller();
    assert_eq!(c.next_step(), Step::Overwrite);
    assert_eq!(c.current_path(), &PathBuf::from("/tmp/x"));
}
