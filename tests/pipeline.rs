use system_monitor::gauge::{render_gauge, GaugeArc, MemoryUsageChart};
use system_monitor::geometry::{ChartPoint, Region};
use system_monitor::history::{HistoryBuffer, HISTORY_CAPACITY};
use system_monitor::line_chart::{render_line, CpuUsageChart};
use system_monitor::monitor::{MetricsStore, Monitor};
use system_monitor::sampler::{make_sample, MemoryStats, Reading, Sampler, TICK_MS};

fn window_of(capacity: usize, values: &[u32]) -> HistoryBuffer {
    let mut h = HistoryBuffer::empty(capacity);
    for &v in values {
        h.push(v);
    }
    h
}

fn full_reading(cpu: u32) -> Reading {
    Reading {
        cpu: Some(cpu),
        total: Some(16_000),
        used: Some(4_000),
        free: Some(12_000),
        available: Some(11_000),
        os_name: Some("Linux".to_string()),
        os_version: Some("6.1".to_string()),
        cpu_brand: Some("Test CPU".to_string()),
    }
}

fn empty_reading() -> Reading {
    Reading {
        cpu: None,
        total: None,
        used: None,
        free: None,
        available: None,
        os_name: None,
        os_version: None,
        cpu_brand: None,
    }
}

#[test]
fn window_keeps_last_pushed_values() {
    let values: Vec<u32> = (0..70).map(|v| v * 100).collect();
    let h = window_of(60, &values);
    assert_eq!(h.len(), 60);
    assert_eq!(h.to_vec(), values[10..].to_vec());
}

#[test]
fn window_below_capacity_keeps_everything() {
    let h = window_of(5, &[1, 2, 3]);
    assert_eq!(h.len(), 3);
    assert_eq!(h.to_vec(), vec![1, 2, 3]);
    assert_eq!(h.get(0), 1);
    assert_eq!(h.capacity(), 5);
}

#[test]
fn window_evicts_oldest_first() {
    let h = window_of(3, &[1, 2, 3, 4, 5]);
    assert_eq!(h.to_vec(), vec![3, 4, 5]);
}

#[test]
fn new_window_is_full_of_zeros() {
    let h = HistoryBuffer::new();
    assert_eq!(h.len(), HISTORY_CAPACITY);
    assert_eq!(h.capacity(), 60);
    assert!(h.to_vec().iter().all(|&v| v == 0));
}

#[test]
fn line_points_map_onto_region() {
    let h = window_of(60, &[0, 5000, 10000]);
    let plot = render_line(&h, Region::new(800, 600));
    assert_eq!(plot.width, 800);
    assert_eq!(plot.height, 600);
    assert_eq!(
        plot.points,
        vec![ChartPoint::new(0, 600), ChartPoint::new(400, 300), ChartPoint::new(800, 0)]
    );
}

#[test]
fn single_sample_sits_at_left_edge() {
    let h = window_of(60, &[2500]);
    let plot = render_line(&h, Region::new(100, 40));
    assert_eq!(plot.points, vec![ChartPoint::new(0, 30)]);
}

#[test]
fn empty_window_draws_background_only() {
    let mut chart = CpuUsageChart::new(HistoryBuffer::empty(60));
    assert!(chart.draw(Region::new(300, 200)));
    let plot = chart.geometry().unwrap();
    assert_eq!((plot.width, plot.height), (300, 200));
    assert!(plot.points.is_empty());
}

#[test]
fn redraw_without_change_reuses_cache() {
    let mut chart = CpuUsageChart::new(window_of(60, &[1000, 2000]));
    let region = Region::new(50, 100);
    assert!(chart.draw(region));
    let first = chart.geometry().unwrap().points.clone();
    assert!(!chart.draw(region));
    assert_eq!(chart.geometry().unwrap().points, first);
    assert_eq!(first, vec![ChartPoint::new(0, 90), ChartPoint::new(50, 80)]);
}

#[test]
fn resized_region_redraws() {
    let mut chart = CpuUsageChart::new(window_of(60, &[1000, 2000]));
    assert!(chart.draw(Region::new(50, 100)));
    assert!(chart.draw(Region::new(60, 100)));
    assert_eq!(chart.geometry().unwrap().points[1], ChartPoint::new(60, 80));
}

#[test]
fn push_invalidates_line_cache() {
    let mut chart = CpuUsageChart::new(window_of(3, &[0, 0, 0]));
    let region = Region::new(20, 10);
    assert!(chart.draw(region));
    chart.push(0);
    assert!(chart.geometry().is_none());
    assert!(chart.draw(region));
    assert_eq!(chart.data().to_vec(), vec![0, 0, 0]);
}

#[test]
fn quarter_usage_sweeps_ninety_degrees() {
    let plot = render_gauge(25, 100, Region::new(200, 200));
    assert_eq!(plot.arc, Some(GaugeArc { start: 0, sweep: 9000 }));
    assert_eq!(plot.radius, 90);
    assert_eq!(plot.stroke_width, 18);
    assert_eq!(plot.center, ChartPoint::new(100, 100));
}

#[test]
fn zero_total_draws_no_arc() {
    let plot = render_gauge(25, 0, Region::new(200, 100));
    assert_eq!(plot.arc, None);
    assert_eq!(plot.radius, 45);
    assert_eq!(plot.stroke_width, 9);
}

#[test]
fn nothing_used_draws_no_arc() {
    assert_eq!(render_gauge(0, 100, Region::new(10, 10)).arc, None);
}

#[test]
fn over_capacity_saturates_ring() {
    let plot = render_gauge(300, 100, Region::new(10, 10));
    assert_eq!(plot.arc, Some(GaugeArc { start: 0, sweep: 36000 }));
}

#[test]
fn huge_memory_figures_do_not_overflow() {
    let plot = render_gauge(u64::MAX / 2, u64::MAX, Region::new(10, 10));
    assert_eq!(plot.arc, Some(GaugeArc { start: 0, sweep: 17999 }));
}

#[test]
fn usage_update_invalidates_gauge_cache() {
    let mut gauge = MemoryUsageChart::new(25, 100);
    let region = Region::new(40, 40);
    assert!(gauge.draw(region));
    assert!(!gauge.draw(region));
    gauge.set_usage(25, 100);
    assert!(gauge.geometry().is_none());
    assert!(gauge.draw(region));
    assert_eq!(gauge.geometry().unwrap().arc, Some(GaugeArc { start: 0, sweep: 9000 }));
    assert_eq!((gauge.used_memory(), gauge.total_memory()), (25, 100));
}

#[test]
fn sampler_discards_first_reading() {
    let mut s = Sampler::new(200);
    assert!(!s.is_warmed_up());
    let first = s.step(&full_reading(9900));
    assert!(first.sample.is_none());
    assert_eq!(first.sleep_ms, 200);
    assert!(s.is_warmed_up());
    let second = s.step(&full_reading(1234));
    let sample = second.sample.unwrap();
    assert_eq!(second.sleep_ms, TICK_MS);
    assert_eq!(sample.seq, 1);
    assert_eq!(sample.cpu, 1234);
    let third = s.step(&full_reading(50)).sample.unwrap();
    assert_eq!(third.seq, 2);
}

#[test]
fn sample_carries_reading_fields() {
    let s = make_sample(&full_reading(4200), 7);
    assert_eq!(s.seq, 7);
    assert_eq!(s.cpu, 4200);
    assert_eq!(
        s.memory,
        MemoryStats { total: 16_000, used: 4_000, free: 12_000, available: 11_000 }
    );
    assert_eq!(s.platform, "Linux 6.1");
    assert_eq!(s.cpu_model, "Test CPU");
}

#[test]
fn missing_fields_become_placeholders() {
    let s = make_sample(&empty_reading(), 3);
    assert_eq!(s.cpu, 0);
    assert_eq!(s.memory, MemoryStats { total: 0, used: 0, free: 0, available: 0 });
    assert_eq!(s.platform, "Unknown Unknown");
    assert_eq!(s.cpu_model, "Unknown");
}

#[test]
fn monitor_takes_in_newer_samples_only() {
    let mut m = Monitor::new();
    assert_eq!(m.cpu_chart().data().len(), 60);
    assert_eq!(m.memory_chart().total_memory(), 100);
    let region = Region::new(590, 100);
    assert!(m.draw_cpu(region));
    assert!(m.draw_memory(region));
    assert!(!m.draw_cpu(region));

    let s2 = make_sample(&full_reading(5000), 2);
    assert!(m.on_sample(&s2));
    assert_eq!(m.last_seq(), Some(2));
    assert!(m.cpu_geometry().is_none());
    assert!(m.memory_geometry().is_none());
    let data = m.cpu_chart().data().to_vec();
    assert_eq!(data.len(), 60);
    assert_eq!(data[59], 5000);
    assert_eq!(m.memory_chart().used_memory(), 4_000);
    assert_eq!(m.memory_chart().total_memory(), 16_000);

    assert!(m.draw_cpu(region));
    assert_eq!(m.cpu_geometry().unwrap().points[59], ChartPoint::new(590, 50));
    let stale = make_sample(&full_reading(100), 2);
    assert!(!m.on_sample(&stale));
    assert!(m.cpu_geometry().is_some());
    assert_eq!(m.cpu_chart().data().to_vec()[59], 5000);
}

#[test]
fn store_holds_latest_sample_only() {
    let mut store = MetricsStore::new();
    assert!(store.latest().is_none());
    store.publish(make_sample(&full_reading(10), 1));
    store.publish(make_sample(&full_reading(20), 2));
    let latest = store.latest().unwrap();
    assert_eq!((latest.seq, latest.cpu), (2, 20));
}
