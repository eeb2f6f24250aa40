use vc4::gauge::{DataWidth, Gauge, GaugeData};

#[test]
fn data_width_bytes() {
    assert_eq!(DataWidth::U8.num_bytes(), 1);
    assert_eq!(DataWidth::U16.num_bytes(), 2);
    assert_eq!(DataWidth::I16.num_bytes(), 2);
}

#[test]
fn gauge_data_set_and_get() {
    let mut g = GaugeData::new(0x24, DataWidth::U16, 0);
    assert_eq!(g.get(), 0);
    assert_eq!(g.width(), 2);
    g.set(1234);
    assert_eq!(g.get(), 1234);
    assert_eq!(g.prim_id(), 0x24);
}

#[test]
fn gauge_data_from_le_bytes() {
    let mut g = GaugeData::new(0x2D, DataWidth::U16, 0);
    g.set_from_bytes(&[0x34, 0x12]);
    assert_eq!(g.get(), 0x1234);
    g.set_from_bytes(&[0xFF]);
    assert_eq!(g.get(), 0xFF);
    g.set_from_bytes(&[0x01, 0x02, 0x03, 0x04]);
    assert_eq!(g.get(), 0x0403_0201);
    g.set_from_bytes(&[]);
    assert_eq!(g.get(), 0);
}

#[test]
fn gauge_ids_round_trip() {
    assert_eq!(Gauge::StaTime.id(), 0x20);
    assert_eq!(Gauge::ManifoldPressure.id(), 0x24);
    assert_eq!(Gauge::Rpm.id(), 0x2D);
    assert_eq!(Gauge::Ve2.id(), 0x64);
    assert_eq!(Gauge::Advance1.id(), 0x66);
    assert_eq!(Gauge::Masteralive.id(), 0x70);

    for id in 0x20u16..=0x64 {
        let g = Gauge::from_repr(id).expect("contiguous id range");
        assert_eq!(g.id(), id);
    }
    assert!(Gauge::from_repr(0x65).is_none());
    for id in 0x66u16..=0x69 {
        assert_eq!(Gauge::from_repr(id).unwrap().id(), id);
    }
    for id in 0x6Au16..=0x6F {
        assert!(Gauge::from_repr(id).is_none());
    }
    assert_eq!(Gauge::from_repr(0x70).unwrap().id(), 0x70);
    assert!(Gauge::from_repr(0).is_none());
    assert!(Gauge::from_repr(0x71).is_none());
}

#[test]
fn gauge_widths() {
    assert!(matches!(Gauge::RpmDot.data_width(), DataWidth::I16));
    assert!(matches!(Gauge::Rpm.data_width(), DataWidth::U16));
    assert!(matches!(Gauge::ManifoldPressure.data_width(), DataWidth::U16));
    assert!(matches!(Gauge::Iat.data_width(), DataWidth::U8));
    assert!(matches!(Gauge::Masteralive.data_width(), DataWidth::U8));
}

use vc4::gauge::{speeduino_n_writer, speeduino_A_writer, GaugeBank};

#[test]
fn bank_starts_zeroed_with_ids() {
    let bank = GaugeBank::new();
    assert_eq!(bank.sta_time.id, 0x20);
    assert_eq!(bank.manifold_pressure.id, 0x24);
    assert!(matches!(bank.manifold_pressure.width, DataWidth::U16));
    assert_eq!(bank.masteralive.id, 0x70);
    assert_eq!(bank.rpm.get(), 0);
    assert_eq!(bank.raw_gauge(&Gauge::Rpm).id, 0x2D);
    assert_eq!(bank.raw_gauge(&Gauge::Masteralive).id, 0x70);
}

#[test]
fn n_frame_decodes_into_bank() {
    let mut bank = GaugeBank::new();
    let mut buf = [0u8; 126];
    buf[3] = 11; // seconds
    buf[17] = 0x34; // rpm low
    buf[18] = 0x12; // rpm high
    buf[7] = 0x01; // manifold pressure low
    buf[8] = 0x02; // manifold pressure high
    buf[43] = 99; // barometer
    buf[121] = 5; // sd status
    speeduino_n_writer(&mut bank, buf);
    assert_eq!(bank.sta_time.get(), 11);
    assert_eq!(bank.rpm.get(), 0x1234);
    assert_eq!(bank.manifold_pressure.get(), 0x0201);
    assert_eq!(bank.baro.get(), 99);
    assert_eq!(bank.sd_sta.get(), 5);
    assert_eq!(bank.masteralive.get(), 0); // not part of the frame
}

#[test]
fn a_frame_decodes_leading_run_only() {
    let mut bank = GaugeBank::new();
    bank.ve2.set(77); // outside the A frame: must survive
    let mut buf = [0u8; 126];
    buf[2] = 42; // seconds
    buf[16] = 0xE8; // rpm low
    buf[17] = 0x03; // rpm high
    buf[75] = 200; // throttle ADC
    speeduino_A_writer(&mut bank, buf);
    assert_eq!(bank.sta_time.get(), 42);
    assert_eq!(bank.rpm.get(), 1000);
    assert_eq!(bank.tps_adc.get(), 200);
    assert_eq!(bank.ve2.get(), 77);
}
