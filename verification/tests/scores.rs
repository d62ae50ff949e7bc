use synapse::{AxonInputs, NetworkData, RadianceInputs, VortexInputs};

const EPSILON: f64 = 1e-7;

fn integrity(packet_loss_percent: f64) -> f64 {
    (1.0 - packet_loss_percent / 100.0).clamp(0.0, 1.0).powf(10.0)
}

fn vortex(i: VortexInputs<f64>) -> f64 {
    let volume = (1.0 + i.down_mbps).log10() * (1.0 + i.up_mbps).log10();
    let friction = i.ping_ms / 1000.0 + 3.0 * (i.jitter_ms / 1000.0) + EPSILON;
    (volume / friction) * integrity(i.packet_loss_percent)
}

fn radiance(i: RadianceInputs<f64>) -> f64 {
    ((i.channel_width_mhz / 20.0) * (i.rssi_dbm - i.noise_dbm)).max(0.0)
}

fn axon(i: AxonInputs<f64>) -> f64 {
    (i.vortex * i.radiance).sqrt()
}

fn wifi() -> NetworkData<f64> {
    NetworkData {
        down_mbps: Some(45.0),
        up_mbps: Some(12.0),
        ping_ms: Some(35.0),
        jitter_ms: Some(4.0),
        packet_loss_percent: Some(0.1),
        rssi_dbm: Some(-80.0),
        noise_dbm: Some(-100.0),
        channel_width_mhz: Some(20.0),
    }
}

fn wired() -> NetworkData<f64> {
    NetworkData {
        down_mbps: Some(45.0),
        up_mbps: Some(12.0),
        ping_ms: Some(35.0),
        jitter_ms: Some(4.0),
        packet_loss_percent: Some(0.1),
        ..Default::default()
    }
}

fn radio_only() -> NetworkData<f64> {
    NetworkData {
        rssi_dbm: Some(-80.0),
        noise_dbm: Some(-100.0),
        channel_width_mhz: Some(20.0),
        ..Default::default()
    }
}

fn close(a: f64, b: f64, tolerance: f64) -> bool {
    (a - b).abs() <= tolerance
}

#[test]
fn full_wifi_record_scores() {
    let d = wifi();
    let expected_vortex =
        46.0f64.log10() * 13.0f64.log10() / (0.035 + 0.012 + 1e-7) * 0.999f64.powf(10.0);
    let vx = d.calculate_vortex(vortex).unwrap();
    assert!(close(vx, expected_vortex, 1e-9));
    assert!(close(vx, 39.0165, 1e-2));
    let rd = d.calculate_radiance(radiance).unwrap();
    assert_eq!(rd, 20.0);
    let ax = d.calculate_axon(vortex, radiance, axon).unwrap();
    assert!(close(ax, (expected_vortex * 20.0).sqrt(), 1e-9));
    assert!(close(ax, 27.9344, 1e-2));
}

#[test]
fn wired_record_scores_vortex_only() {
    let d = wired();
    assert_eq!(d.radiance_inputs(), None);
    assert_eq!(d.calculate_radiance(radiance), None);
    assert_eq!(d.calculate_axon(vortex, radiance, axon), None);
    let expected =
        46.0f64.log10() * 13.0f64.log10() / (0.035 + 0.012 + 1e-7) * 0.999f64.powf(10.0);
    assert!(close(d.calculate_vortex(vortex).unwrap(), expected, 1e-9));
    assert_eq!(d.calculate_vortex(vortex), wifi().calculate_vortex(vortex));
}

#[test]
fn radio_only_record_scores_radiance_only() {
    let d = radio_only();
    assert_eq!(d.vortex_inputs(), None);
    assert_eq!(d.calculate_vortex(vortex), None);
    assert_eq!(d.calculate_axon(vortex, radiance, axon), None);
    assert_eq!(d.calculate_radiance(radiance), Some(20.0));
}

#[test]
fn inputs_keep_fractional_and_negative_readings() {
    assert_eq!(
        wifi().vortex_inputs(),
        Some(VortexInputs {
            down_mbps: 45.0,
            up_mbps: 12.0,
            ping_ms: 35.0,
            jitter_ms: 4.0,
            packet_loss_percent: 0.1,
        })
    );
    assert_eq!(
        wifi().radiance_inputs(),
        Some(RadianceInputs { channel_width_mhz: 20.0, rssi_dbm: -80.0, noise_dbm: -100.0 })
    );
}

#[test]
fn radiance_scales_with_channel_width() {
    let d = NetworkData { channel_width_mhz: Some(80.0), ..wifi() };
    assert_eq!(d.calculate_radiance(radiance), Some(80.0));
}

#[test]
fn radiance_is_floored_at_zero_when_noise_exceeds_signal() {
    let d = NetworkData { rssi_dbm: Some(-100.0), noise_dbm: Some(-80.0), ..wifi() };
    assert_eq!(d.calculate_radiance(radiance), Some(0.0));
    assert_eq!(d.calculate_axon(vortex, radiance, axon), Some(0.0));
}

#[test]
fn packet_loss_is_clamped_to_the_unit_interval() {
    assert_eq!(integrity(0.0), 1.0);
    assert_eq!(integrity(100.0), 0.0);
    assert_eq!(integrity(250.0), 0.0);
    assert_eq!(integrity(-5.0), 1.0);
    assert!(close(integrity(1.0), 0.904382, 1e-6));
    let lossless = NetworkData { packet_loss_percent: Some(0.0), ..wifi() };
    let expected = 46.0f64.log10() * 13.0f64.log10() / (0.035 + 0.012 + 1e-7);
    assert!(close(lossless.calculate_vortex(vortex).unwrap(), expected, 1e-9));
    let dead = NetworkData { packet_loss_percent: Some(100.0), ..wifi() };
    assert_eq!(dead.calculate_vortex(vortex), Some(0.0));
    let beyond = NetworkData { packet_loss_percent: Some(150.0), ..wifi() };
    assert_eq!(beyond.calculate_vortex(vortex), Some(0.0));
}

#[test]
fn zero_latency_and_jitter_still_give_a_finite_vortex() {
    let d = NetworkData { ping_ms: Some(0.0), jitter_ms: Some(0.0), ..wifi() };
    let vx = d.calculate_vortex(vortex).unwrap();
    assert!(vx.is_finite());
    let expected = 46.0f64.log10() * 13.0f64.log10() / 1e-7 * 0.999f64.powf(10.0);
    assert!(close(vx / expected, 1.0, 1e-12));
}

#[test]
fn zero_throughput_gives_zero_vortex() {
    let d = NetworkData { down_mbps: Some(0.0), ..wifi() };
    assert_eq!(d.calculate_vortex(vortex), Some(0.0));
}

#[test]
fn vortex_rises_with_throughput_and_falls_with_friction_and_loss() {
    let base = wifi().calculate_vortex(vortex).unwrap();
    let more_down = NetworkData { down_mbps: Some(90.0), ..wifi() };
    assert!(more_down.calculate_vortex(vortex).unwrap() >= base);
    let more_up = NetworkData { up_mbps: Some(24.0), ..wifi() };
    assert!(more_up.calculate_vortex(vortex).unwrap() >= base);
    let more_ping = NetworkData { ping_ms: Some(70.0), ..wifi() };
    assert!(more_ping.calculate_vortex(vortex).unwrap() <= base);
    let more_jitter = NetworkData { jitter_ms: Some(8.0), ..wifi() };
    assert!(more_jitter.calculate_vortex(vortex).unwrap() <= base);
    let more_loss = NetworkData { packet_loss_percent: Some(2.0), ..wifi() };
    assert!(more_loss.calculate_vortex(vortex).unwrap() <= base);
}
