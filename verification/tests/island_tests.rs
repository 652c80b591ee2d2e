use island_core::coordinator::{ContentType, Coordinator, IslandMode};
use island_core::errors::IslandError;
use island_core::greet;
use island_core::telemetry::{HostReading, ProcessSample, TelemetrySampler};
use island_core::window::{initial_placement, validate_resize, ResizeRequest};

fn ps(name: &str, cpu_bp: u64, memory_bytes: u64) -> ProcessSample {
    ProcessSample { name: name.to_string(), cpu_bp, memory_bytes }
}

fn reading(processes: Vec<ProcessSample>) -> HostReading {
    HostReading { cpu_bp: 2500, memory_used: 4_000_000_000, memory_total: 16_000_000_000, processes }
}

#[test]
fn toggle_flips_and_reports_new_value() {
    let mut c = Coordinator::new();
    assert!(!c.is_expanded());
    assert_eq!(c.toggle_expansion().unwrap(), true);
    assert_eq!(c.toggle_expansion().unwrap(), false);
    assert_eq!(c.toggle_expansion().unwrap(), true);
    // three toggles: final value is the initial value flipped an odd number
    // of times
    assert!(c.is_expanded());
}

#[test]
fn toggle_fails_fast_on_poisoned_guard() {
    let mut c = Coordinator::new();
    c.poison();
    assert_eq!(c.toggle_expansion(), Err(IslandError::LockFailure));
    // the flag was not touched
    assert!(!c.is_expanded());
}

#[test]
fn sample_ranks_top_processes_descending() {
    let mut s = TelemetrySampler::new();
    let r = reading(vec![
        ps("editor", 500, 100),
        ps("browser", 2000, 900),
        ps("idle", 5, 10),
        ps("compiler", 1500, 700),
        ps("logger", 10, 20),
        ps("player", 300, 50),
        ps("indexer", 800, 60),
    ]);
    let snap = s.sample(r, 12, 30).unwrap();
    let names: Vec<&str> = snap.top_processes.iter().map(|p| p.name.as_str()).collect();
    assert_eq!(names, vec!["browser", "compiler", "indexer", "editor", "player"]);
    let cpus: Vec<u64> = snap.top_processes.iter().map(|p| p.cpu_bp).collect();
    assert_eq!(cpus, vec![2000, 1500, 800, 500, 300]);
}

#[test]
fn sample_drops_rows_at_or_below_noise_floor() {
    let mut s = TelemetrySampler::new();
    let r = reading(vec![ps("quiet", 10, 5), ps("busy", 15, 5), ps("asleep", 0, 5)]);
    let snap = s.sample(r, 0, 0).unwrap();
    assert_eq!(snap.top_processes.len(), 1);
    assert_eq!(snap.top_processes[0].name, "busy");
    assert_eq!(snap.top_processes[0].cpu_bp, 15);
}

#[test]
fn sample_caps_rows_at_five() {
    let mut s = TelemetrySampler::new();
    let r = reading(vec![
        ps("p1", 100, 1),
        ps("p2", 200, 1),
        ps("p3", 300, 1),
        ps("p4", 400, 1),
        ps("p5", 500, 1),
        ps("p6", 600, 1),
    ]);
    let snap = s.sample(r, 1, 1).unwrap();
    assert_eq!(snap.top_processes.len(), 5);
    // the least busy row is the one that fell off
    assert!(snap.top_processes.iter().all(|p| p.name != "p1"));
    assert_eq!(snap.top_processes[0].cpu_bp, 600);
    assert_eq!(snap.top_processes[4].cpu_bp, 200);
}

#[test]
fn sample_keeps_tied_rows() {
    let mut s = TelemetrySampler::new();
    let r = reading(vec![ps("a", 500, 1), ps("b", 500, 1)]);
    let snap = s.sample(r, 1, 1).unwrap();
    assert_eq!(snap.top_processes.len(), 2);
    assert_eq!(snap.top_processes[0].cpu_bp, 500);
    assert_eq!(snap.top_processes[1].cpu_bp, 500);
}

#[test]
fn sample_with_no_processes() {
    let mut s = TelemetrySampler::new();
    let snap = s.sample(reading(vec![]), 9, 41).unwrap();
    assert!(snap.top_processes.is_empty());
    assert_eq!(snap.cpu_bp, 2500);
    assert_eq!(snap.memory_used, 4_000_000_000);
    assert_eq!(snap.memory_total, 16_000_000_000);
}

#[test]
fn sample_formats_clock_zero_padded() {
    let mut s = TelemetrySampler::new();
    let snap = s.sample(reading(vec![]), 7, 5).unwrap();
    assert_eq!(snap.sample_time, "07:05");
    let snap = s.sample(reading(vec![]), 23, 59).unwrap();
    assert_eq!(snap.sample_time, "23:59");
    let snap = s.sample(reading(vec![]), 0, 0).unwrap();
    assert_eq!(snap.sample_time, "00:00");
}

#[test]
fn sample_never_errors_from_repetition() {
    let mut s = TelemetrySampler::new();
    for _ in 0..10 {
        assert!(s.sample(reading(vec![ps("steady", 100, 1)]), 6, 30).is_ok());
    }
}

#[test]
fn sample_fails_fast_on_poisoned_guard() {
    let mut s = TelemetrySampler::new();
    s.poison();
    let r = s.sample(reading(vec![]), 10, 0);
    assert!(matches!(r, Err(IslandError::LockFailure)));
}

#[test]
fn samples_from_two_callers_stay_consistent() {
    // two callers with their own view of the shared handle: both calls
    // complete, and each snapshot keeps used memory within the total
    let mut s1 = TelemetrySampler::new();
    let mut s2 = TelemetrySampler::new();
    let a = s1.sample(reading(vec![ps("x", 50, 1)]), 3, 4).unwrap();
    let b = s2.sample(reading(vec![ps("y", 60, 1)]), 3, 4).unwrap();
    assert!(a.memory_used <= a.memory_total);
    assert!(b.memory_used <= b.memory_total);
}

#[test]
fn resize_rejects_zero_width() {
    let mut platform_calls: Vec<(i64, i64)> = Vec::new();
    match validate_resize(0, 40) {
        Ok(req) => platform_calls.push((req.width, req.height)),
        Err(e) => assert_eq!(e, IslandError::InvalidDimensions { width: 0, height: 40 }),
    }
    assert_eq!(platform_calls.len(), 0);
}

#[test]
fn resize_rejects_negative_height() {
    let mut platform_calls: Vec<(i64, i64)> = Vec::new();
    match validate_resize(320, -5) {
        Ok(req) => platform_calls.push((req.width, req.height)),
        Err(e) => assert_eq!(e, IslandError::InvalidDimensions { width: 320, height: -5 }),
    }
    assert_eq!(platform_calls.len(), 0);
}

#[test]
fn resize_passes_valid_dimensions_through_once() {
    let mut platform_calls: Vec<(i64, i64)> = Vec::new();
    match validate_resize(320, 40) {
        Ok(req) => platform_calls.push((req.width, req.height)),
        Err(_) => panic!("a positive size must be accepted"),
    }
    assert_eq!(platform_calls, vec![(320, 40)]);
    assert_eq!(validate_resize(320, 40).unwrap(), ResizeRequest { width: 320, height: 40 });
}

#[test]
fn set_mode_last_write_wins() {
    let mut c = Coordinator::new();
    c.set_mode("expanded", "music").unwrap();
    assert_eq!(c.mode(), IslandMode::Expanded);
    assert_eq!(c.content_type(), ContentType::Music);
    c.set_mode("compact", "system").unwrap();
    assert_eq!(c.mode(), IslandMode::Compact);
    assert_eq!(c.content_type(), ContentType::System);
}

#[test]
fn set_mode_rejects_unknown_descriptors() {
    let mut c = Coordinator::new();
    assert_eq!(c.set_mode("gigantic", "music"), Err(IslandError::InvalidArgument));
    assert_eq!(c.set_mode("expanded", "podcast"), Err(IslandError::InvalidArgument));
    // a rejected call changes nothing
    assert_eq!(c.mode(), IslandMode::Compact);
    assert_eq!(c.content_type(), ContentType::System);
}

#[test]
fn set_mode_accepts_every_domain_value() {
    let mut c = Coordinator::new();
    for m in ["compact", "expanded", "activity"] {
        for ct in ["system", "music", "notification", "timer"] {
            assert!(c.set_mode(m, ct).is_ok());
        }
    }
    assert_eq!(c.mode(), IslandMode::Activity);
    assert_eq!(c.content_type(), ContentType::Timer);
}

#[test]
fn set_mode_fails_fast_on_poisoned_guard() {
    let mut c = Coordinator::new();
    c.poison();
    assert_eq!(c.set_mode("expanded", "music"), Err(IslandError::LockFailure));
    assert_eq!(c.mode(), IslandMode::Compact);
}

#[test]
fn local_clock_sample_is_a_valid_render() {
    let mut s = TelemetrySampler::new();
    let snap = s.sample_local(reading(vec![])).unwrap();
    let bytes = snap.sample_time.as_bytes();
    assert_eq!(bytes.len(), 5);
    assert_eq!(bytes[2], b':');
    for i in [0, 1, 3, 4] {
        assert!(bytes[i].is_ascii_digit());
    }
    let hour: u32 = snap.sample_time[0..2].parse().unwrap();
    let minute: u32 = snap.sample_time[3..5].parse().unwrap();
    assert!(hour < 24);
    assert!(minute < 60);
}

#[test]
fn greet_formats_the_name() {
    assert_eq!(greet("Alice"), "Hello, Alice! You've been greeted from Rust!");
    assert_eq!(greet(""), "Hello, ! You've been greeted from Rust!");
}

#[test]
fn initial_placement_centers_horizontally() {
    assert_eq!(initial_placement(1920), (800, 0));
    assert_eq!(initial_placement(320), (0, 0));
}

#[test]
fn error_messages_name_the_failure() {
    assert_eq!(IslandError::LockFailure.message(), "shared state lock is poisoned");
    assert_eq!(IslandError::SamplingError.message(), "host metrics query failed");
    assert_eq!(
        IslandError::InvalidDimensions { width: 0, height: -5 }.message(),
        "invalid window dimensions: 0x-5"
    );
    assert_eq!(
        IslandError::InvalidDimensions { width: 1234567, height: -9007 }.message(),
        "invalid window dimensions: 1234567x-9007"
    );
    assert_eq!(
        IslandError::InvalidDimensions { width: i64::MIN, height: i64::MAX }.message(),
        "invalid window dimensions: -9223372036854775808x9223372036854775807"
    );
    assert_eq!(
        IslandError::InvalidArgument.message(),
        "unknown island mode or content type"
    );
}
