use certs::batch::{
    make_jobs, record_complete, records_rectangular, summarize, BatchReport, JobOutcome,
};
use certs::errors::{dir_outcome_fatal, CertError, IoErrorKind};
use certs::geom::{PreviewPoint, TextRect};
use certs::naming::output_filename;
use certs::render::{generate_certificate, render_plan};
use certs::scale::{scale_rect, scale_regions, Scale, ScaledRegion};

fn rect(x1: u32, y1: u32, x2: u32, y2: u32) -> TextRect {
    TextRect {
        p1: PreviewPoint { x: x1, y: y1 },
        p2: PreviewPoint { x: x2, y: y2 },
    }
}

fn strings(values: &[&str]) -> Vec<String> {
    values.iter().map(|v| v.to_string()).collect()
}

#[test]
fn unset_region_scales_to_skip() {
    let s = Scale { num: 5, den: 2 };
    let unset = TextRect::default();
    let scaled = scale_rect(&s, &unset);
    assert_eq!(scaled, ScaledRegion { x: 0, y: 0, width: 0 });
    assert!(scaled.skip());
}

#[test]
fn unset_regions_paint_nothing() {
    let s = Scale { num: 5, den: 2 };
    let regions = scale_regions(&s, &vec![TextRect::default(), TextRect::default()]);
    let fields = strings(&["Omar", "Lina"]);
    let ops = render_plan(&fields, &regions);
    assert!(ops.is_empty());
}

#[test]
fn scaled_width_order_independent() {
    let s = Scale { num: 5, den: 2 };
    let a = scale_rect(&s, &rect(100, 100, 300, 140));
    let b = scale_rect(&s, &rect(300, 140, 100, 100));
    assert_eq!(a, b);
    assert_eq!(a.width, 500);
}

#[test]
fn scale_exact_values() {
    let s = Scale { num: 5, den: 2 };
    let scaled = scale_rect(&s, &rect(100, 100, 300, 140));
    assert_eq!(scaled, ScaledRegion { x: 250, y: 250, width: 500 });
}

#[test]
fn corner_normalization() {
    let r = rect(300, 100, 100, 140).min();
    assert_eq!(r.p1, PreviewPoint { x: 100, y: 100 });
    assert_eq!(r.p2, PreviewPoint { x: 300, y: 140 });
}

#[test]
fn output_filename_exact() {
    let record = strings(&["42", "Amina"]);
    assert_eq!(output_filename(&record), "42-Amina.png");
}

#[test]
fn plan_skips_only_unset_regions() {
    let s = Scale { num: 5, den: 2 };
    let regions = scale_regions(
        &s,
        &vec![TextRect::default(), rect(100, 100, 300, 140), TextRect::default()],
    );
    let fields = strings(&["1", "Omar", "o@x.com"]);
    let ops = render_plan(&fields, &regions);
    assert_eq!(ops.len(), 1);
    assert_eq!(ops[0].text, "Omar");
    assert_eq!(ops[0].x, 250);
    assert_eq!(ops[0].y, 250);
    assert_eq!(ops[0].width, 500);
}

#[test]
fn one_job_per_record() {
    let s = Scale { num: 5, den: 2 };
    let regions = scale_regions(&s, &vec![TextRect::default(), rect(100, 100, 300, 140)]);
    let records = vec![
        strings(&["1", "Omar"]),
        strings(&["2", "Lina"]),
        strings(&["3", "Amina"]),
    ];
    let jobs = make_jobs(&records, &regions, 40);
    assert_eq!(jobs.len(), 3);
    assert_eq!(jobs[0].filename, "1-Omar.png");
    assert_eq!(jobs[1].filename, "2-Lina.png");
    assert_eq!(jobs[2].filename, "3-Amina.png");
    for job in &jobs {
        assert_eq!(job.ops.len(), 1);
        assert_eq!(job.font_size, 40);
    }
}

#[test]
fn job_depends_only_on_its_record() {
    let s = Scale { num: 5, den: 2 };
    let regions = scale_regions(&s, &vec![rect(100, 100, 300, 140), rect(10, 10, 20, 20)]);
    let records_a = vec![strings(&["1", "Omar"]), strings(&["2", "Lina"])];
    let records_b = vec![strings(&["9", "Nour"]), strings(&["2", "Lina"])];
    let jobs_a = make_jobs(&records_a, &regions, 40);
    let jobs_b = make_jobs(&records_b, &regions, 40);
    // The second record agrees, so the second job agrees, whatever the
    // first record held.
    assert_eq!(jobs_a[1].filename, jobs_b[1].filename);
    assert_eq!(jobs_a[1].ops.len(), jobs_b[1].ops.len());
    for (x, y) in jobs_a[1].ops.iter().zip(jobs_b[1].ops.iter()) {
        assert_eq!(x.text, y.text);
        assert_eq!((x.x, x.y, x.width), (y.x, y.y, y.width));
    }
}

#[test]
fn end_to_end_plan() {
    let s = Scale { num: 5, den: 2 };
    let layout = vec![TextRect::default(), rect(100, 100, 300, 140), TextRect::default()];
    let regions = scale_regions(&s, &layout);
    let records = vec![
        strings(&["1", "Omar", "o@x.com"]),
        strings(&["2", "Lina", "l@x.com"]),
    ];
    let jobs = make_jobs(&records, &regions, 40);
    assert_eq!(jobs.len(), 2);
    assert_eq!(jobs[0].filename, "1-Omar.png");
    assert_eq!(jobs[1].filename, "2-Lina.png");
    assert_eq!(jobs[0].ops.len(), 1);
    assert_eq!(jobs[1].ops.len(), 1);
    assert_eq!(jobs[0].ops[0].text, "Omar");
    assert_eq!(jobs[1].ops[0].text, "Lina");
}

#[test]
fn generate_certificate_carries_name_and_size() {
    let s = Scale { num: 5, den: 2 };
    let regions = scale_regions(&s, &vec![rect(0, 0, 40, 20)]);
    let record = strings(&["7", "Hala"]);
    let job = generate_certificate(&record, &regions, "7-Hala.png", 32);
    assert_eq!(job.filename, "7-Hala.png");
    assert_eq!(job.font_size, 32);
    assert_eq!(job.ops.len(), 1);
    assert_eq!(job.ops[0].text, "7");
}

#[test]
fn summarize_counts_each_outcome_once() {
    let outcomes = vec![
        JobOutcome::Completed,
        JobOutcome::Failed(CertError::DecodeError),
        JobOutcome::Completed,
        JobOutcome::Failed(CertError::IoError(IoErrorKind::PermissionDenied)),
    ];
    let report = summarize(&outcomes);
    assert_eq!(report, BatchReport { completed: 2, failed: 2 });
    assert_eq!(summarize(&Vec::new()), BatchReport { completed: 0, failed: 0 });
}

#[test]
fn incomplete_rows_are_detected() {
    assert!(record_complete(&strings(&["1", "Omar", "o@x.com"])));
    assert!(!record_complete(&strings(&["1", "", "o@x.com"])));
    assert!(record_complete(&Vec::new()));
}

#[test]
fn ragged_record_sets_are_detected() {
    let rect_set = vec![strings(&["1", "Omar"]), strings(&["2", "Lina"])];
    assert!(records_rectangular(&rect_set, 2));
    assert!(!records_rectangular(&rect_set, 3));
    let ragged = vec![strings(&["1", "Omar"]), strings(&["2"])];
    assert!(!records_rectangular(&ragged, 2));
}

#[test]
fn existing_output_directory_is_tolerated() {
    assert!(!dir_outcome_fatal(&None));
    assert!(!dir_outcome_fatal(&Some(IoErrorKind::AlreadyExists)));
    assert!(dir_outcome_fatal(&Some(IoErrorKind::PermissionDenied)));
    assert!(dir_outcome_fatal(&Some(IoErrorKind::Other)));
}
