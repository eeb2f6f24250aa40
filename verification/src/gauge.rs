//! Telemetry gauges: typed numeric cells addressed by small integer ids.
//!
//! Each gauge is a named cell of up to 32 bits with a CAN-style standard
//! identifier and a declared data width.  The pipeline around the GPU
//! core treats this registry only as something that owns a set of numeric
//! values addressable by those ids; the cells themselves are plain values
//! here, updated through `&mut` access in this single-threaded firmware.

use vstd::prelude::*;

verus! {

/// The width of a gauge's value on the wire.
#[derive(Debug, Clone, Copy, PartialEq, Eq, Structural)]
#[non_exhaustive]
pub enum DataWidth {
    U8,
    U16,
    I16,
}

impl DataWidth {
    /// How many bytes a value of this width occupies.
    pub fn num_bytes(&self) -> (r: usize)
        ensures
            *self is U8 ==> r == 1,
            *self is U16 ==> r == 2,
            *self is I16 ==> r == 2,
    {
        match self {
            DataWidth::U8 => 1,
            DataWidth::U16 => 2,
            DataWidth::I16 => 2,
        }
    }
}

/// The value of a little-endian byte run of at most four bytes.
pub open spec fn spec_le_value(s: Seq<u8>) -> int
    recommends
        s.len() <= 4,
{
    (if s.len() > 0 {
        s[0] as int
    } else {
        0
    }) + 0x100 * (if s.len() > 1 {
        s[1] as int
    } else {
        0
    }) + 0x1_0000 * (if s.len() > 2 {
        s[2] as int
    } else {
        0
    }) + 0x100_0000 * (if s.len() > 3 {
        s[3] as int
    } else {
        0
    })
}

/// One gauge: its identifier, its wire width, and its current value.
#[derive(Debug, Clone, Copy, PartialEq, Eq, Structural)]
pub struct GaugeData {
    pub id: u16,
    pub width: DataWidth,
    pub value: u32,
}

impl GaugeData {
    /// A gauge with the given identifier, width, and starting value.
    pub fn new(id: u16, width: DataWidth, initial_value: u32) -> (r: GaugeData)
        ensures
            r == (GaugeData { id, width, value: initial_value }),
    {
        GaugeData { id, width, value: initial_value }
    }

    /// How many bytes this gauge's value occupies on the wire.
    pub fn width(&self) -> (r: usize)
        ensures
            self.width is U8 ==> r == 1,
            self.width is U16 ==> r == 2,
            self.width is I16 ==> r == 2,
    {
        self.width.num_bytes()
    }

    /// The current value.
    pub fn get(&self) -> (r: u32)
        ensures
            r == self.value,
    {
        self.value
    }

    /// Overwrite the value.
    pub fn set(&mut self, value: u32)
        ensures
            *final(self) == (GaugeData { value, ..*old(self) }),
    {
        self.value = value;
    }

    /// Overwrite the value from a little-endian byte run, padding the
    /// missing high bytes with zero.
    pub fn set_from_bytes(&mut self, data: &[u8])
        requires
            data@.len() <= 4,
        ensures
            *final(self) == (GaugeData { value: spec_le_value(data@) as u32, ..*old(self) }),
    {
        let mut value: u32 = 0;
        if data.len() > 0 {
            value = data[0] as u32;
        }
        if data.len() > 1 {
            value = value + (data[1] as u32) * 0x100;
        }
        if data.len() > 2 {
            value = value + (data[2] as u32) * 0x1_0000;
        }
        if data.len() > 3 {
            value = value + (data[3] as u32) * 0x100_0000;
        }
        self.set(value);
    }

    /// The identifier as a primitive byte; gauges of this registry keep
    /// their ids below 256.
    pub fn prim_id(&self) -> (r: u8)
        requires
            self.id <= 255,
        ensures
            r == self.id,
    {
        self.id as u8
    }
}

/// The gauges of the registry, one per telemetry channel.
#[derive(Debug, Clone, Copy, PartialEq, Eq, Structural)]
pub enum Gauge {
    StaTime,
    StaStatus1,
    StaEng,
    Dwell,
    ManifoldPressure,
    Iat,
    Clnt,
    BatCorrect,
    BatVol,
    AfrPri,
    EgoCorrect,
    IatCorrect,
    WueCorrect,
    Rpm,
    AccelEnrich,
    GammeE,
    Ve,
    AfrTarget,
    PulseWidth1,
    TpsDot,
    CurSparkAdvance,
    Tps,
    LoopPs,
    FreeMem,
    BoostTarget,
    BoostPwm,
    StaSpark,
    RpmDot,
    EthanolPercent,
    FlexCorrect,
    FlexIgnCorrect,
    IdleLoad,
    TestOutputs,
    AfrSec,
    Baro,
    TpsAdc,
    NextError,
    StaLaunchCorrect,
    PulseWidth2,
    PulseWidth3,
    PulseWidth4,
    StaStatus2,
    EngProtectSta,
    FuelLoad,
    IgnLoad,
    InjAngle,
    IdleDuty,
    ClIdleTarget,
    MapDot,
    VvtAngle,
    VvtTargetAngle,
    VvtDuty,
    FlexBoostCorrect,
    BaroCorrection,
    Ase,
    Vss,
    Gear,
    FuelPres,
    OilPres,
    WmiPw,
    StaStatus4,
    VvtAngle2,
    VvtTargetAngle2,
    VvtDuty2,
    StatusOutSta,
    FlexFuelTemp,
    FuelTempCorrect,
    Ve1,
    Ve2,
    Advance1,
    Advance2,
    NitroSta,
    SdSta,
    Masteralive,
}

impl Gauge {
    /// The gauge's identifier on the bus.
    pub open spec fn spec_id(&self) -> u16 {
        match self {
            Gauge::StaTime => 0x20u16,
            Gauge::StaStatus1 => 0x21u16,
            Gauge::StaEng => 0x22u16,
            Gauge::Dwell => 0x23u16,
            Gauge::ManifoldPressure => 0x24u16,
            Gauge::Iat => 0x25u16,
            Gauge::Clnt => 0x26u16,
            Gauge::BatCorrect => 0x27u16,
            Gauge::BatVol => 0x28u16,
            Gauge::AfrPri => 0x29u16,
            Gauge::EgoCorrect => 0x2Au16,
            Gauge::IatCorrect => 0x2Bu16,
            Gauge::WueCorrect => 0x2Cu16,
            Gauge::Rpm => 0x2Du16,
            Gauge::AccelEnrich => 0x2Eu16,
            Gauge::GammeE => 0x2Fu16,
            Gauge::Ve => 0x30u16,
            Gauge::AfrTarget => 0x31u16,
            Gauge::PulseWidth1 => 0x32u16,
            Gauge::TpsDot => 0x33u16,
            Gauge::CurSparkAdvance => 0x34u16,
            Gauge::Tps => 0x35u16,
            Gauge::LoopPs => 0x36u16,
            Gauge::FreeMem => 0x37u16,
            Gauge::BoostTarget => 0x38u16,
            Gauge::BoostPwm => 0x39u16,
            Gauge::StaSpark => 0x3Au16,
            Gauge::RpmDot => 0x3Bu16,
            Gauge::EthanolPercent => 0x3Cu16,
            Gauge::FlexCorrect => 0x3Du16,
            Gauge::FlexIgnCorrect => 0x3Eu16,
            Gauge::IdleLoad => 0x3Fu16,
            Gauge::TestOutputs => 0x40u16,
            Gauge::AfrSec => 0x41u16,
            Gauge::Baro => 0x42u16,
            Gauge::TpsAdc => 0x43u16,
            Gauge::NextError => 0x44u16,
            Gauge::StaLaunchCorrect => 0x45u16,
            Gauge::PulseWidth2 => 0x46u16,
            Gauge::PulseWidth3 => 0x47u16,
            Gauge::PulseWidth4 => 0x48u16,
            Gauge::StaStatus2 => 0x49u16,
            Gauge::EngProtectSta => 0x4Au16,
            Gauge::FuelLoad => 0x4Bu16,
            Gauge::IgnLoad => 0x4Cu16,
            Gauge::InjAngle => 0x4Du16,
            Gauge::IdleDuty => 0x4Eu16,
            Gauge::ClIdleTarget => 0x4Fu16,
            Gauge::MapDot => 0x50u16,
            Gauge::VvtAngle => 0x51u16,
            Gauge::VvtTargetAngle => 0x52u16,
            Gauge::VvtDuty => 0x53u16,
            Gauge::FlexBoostCorrect => 0x54u16,
            Gauge::BaroCorrection => 0x55u16,
            Gauge::Ase => 0x56u16,
            Gauge::Vss => 0x57u16,
            Gauge::Gear => 0x58u16,
            Gauge::FuelPres => 0x59u16,
            Gauge::OilPres => 0x5Au16,
            Gauge::WmiPw => 0x5Bu16,
            Gauge::StaStatus4 => 0x5Cu16,
            Gauge::VvtAngle2 => 0x5Du16,
            Gauge::VvtTargetAngle2 => 0x5Eu16,
            Gauge::VvtDuty2 => 0x5Fu16,
            Gauge::StatusOutSta => 0x60u16,
            Gauge::FlexFuelTemp => 0x61u16,
            Gauge::FuelTempCorrect => 0x62u16,
            Gauge::Ve1 => 0x63u16,
            Gauge::Ve2 => 0x64u16,
            Gauge::Advance1 => 0x66u16,
            Gauge::Advance2 => 0x67u16,
            Gauge::NitroSta => 0x68u16,
            Gauge::SdSta => 0x69u16,
            Gauge::Masteralive => 0x70u16,
        }
    }

    /// The gauge's identifier as a value.
    pub fn id(&self) -> (r: u16)
        ensures
            r == self.spec_id(),
    {
        match self {
            Gauge::StaTime => 0x20,
            Gauge::StaStatus1 => 0x21,
            Gauge::StaEng => 0x22,
            Gauge::Dwell => 0x23,
            Gauge::ManifoldPressure => 0x24,
            Gauge::Iat => 0x25,
            Gauge::Clnt => 0x26,
            Gauge::BatCorrect => 0x27,
            Gauge::BatVol => 0x28,
            Gauge::AfrPri => 0x29,
            Gauge::EgoCorrect => 0x2A,
            Gauge::IatCorrect => 0x2B,
            Gauge::WueCorrect => 0x2C,
            Gauge::Rpm => 0x2D,
            Gauge::AccelEnrich => 0x2E,
            Gauge::GammeE => 0x2F,
            Gauge::Ve => 0x30,
            Gauge::AfrTarget => 0x31,
            Gauge::PulseWidth1 => 0x32,
            Gauge::TpsDot => 0x33,
            Gauge::CurSparkAdvance => 0x34,
            Gauge::Tps => 0x35,
            Gauge::LoopPs => 0x36,
            Gauge::FreeMem => 0x37,
            Gauge::BoostTarget => 0x38,
            Gauge::BoostPwm => 0x39,
            Gauge::StaSpark => 0x3A,
            Gauge::RpmDot => 0x3B,
            Gauge::EthanolPercent => 0x3C,
            Gauge::FlexCorrect => 0x3D,
            Gauge::FlexIgnCorrect => 0x3E,
            Gauge::IdleLoad => 0x3F,
            Gauge::TestOutputs => 0x40,
            Gauge::AfrSec => 0x41,
            Gauge::Baro => 0x42,
            Gauge::TpsAdc => 0x43,
            Gauge::NextError => 0x44,
            Gauge::StaLaunchCorrect => 0x45,
            Gauge::PulseWidth2 => 0x46,
            Gauge::PulseWidth3 => 0x47,
            Gauge::PulseWidth4 => 0x48,
            Gauge::StaStatus2 => 0x49,
            Gauge::EngProtectSta => 0x4A,
            Gauge::FuelLoad => 0x4B,
            Gauge::IgnLoad => 0x4C,
            Gauge::InjAngle => 0x4D,
            Gauge::IdleDuty => 0x4E,
            Gauge::ClIdleTarget => 0x4F,
            Gauge::MapDot => 0x50,
            Gauge::VvtAngle => 0x51,
            Gauge::VvtTargetAngle => 0x52,
            Gauge::VvtDuty => 0x53,
            Gauge::FlexBoostCorrect => 0x54,
            Gauge::BaroCorrection => 0x55,
            Gauge::Ase => 0x56,
            Gauge::Vss => 0x57,
            Gauge::Gear => 0x58,
            Gauge::FuelPres => 0x59,
            Gauge::OilPres => 0x5A,
            Gauge::WmiPw => 0x5B,
            Gauge::StaStatus4 => 0x5C,
            Gauge::VvtAngle2 => 0x5D,
            Gauge::VvtTargetAngle2 => 0x5E,
            Gauge::VvtDuty2 => 0x5F,
            Gauge::StatusOutSta => 0x60,
            Gauge::FlexFuelTemp => 0x61,
            Gauge::FuelTempCorrect => 0x62,
            Gauge::Ve1 => 0x63,
            Gauge::Ve2 => 0x64,
            Gauge::Advance1 => 0x66,
            Gauge::Advance2 => 0x67,
            Gauge::NitroSta => 0x68,
            Gauge::SdSta => 0x69,
            Gauge::Masteralive => 0x70,
        }
    }

    /// The gauge with the given identifier: some gauge exactly when the
    /// identifier is one of the registry's (the contiguous run 0x20
    /// through 0x64 and the tail 0x66 through 0x69 plus 0x70), and then
    /// the gauge whose id it is.
    pub fn from_repr(id: u16) -> (r: Option<Gauge>)
        ensures
            r is Some <==> (0x20 <= id <= 0x64 || 0x66 <= id <= 0x69 || id == 0x70),
            r matches Some(g) ==> g.spec_id() == id,
    {
        match id {
            0x20 => Some(Gauge::StaTime),
            0x21 => Some(Gauge::StaStatus1),
            0x22 => Some(Gauge::StaEng),
            0x23 => Some(Gauge::Dwell),
            0x24 => Some(Gauge::ManifoldPressure),
            0x25 => Some(Gauge::Iat),
            0x26 => Some(Gauge::Clnt),
            0x27 => Some(Gauge::BatCorrect),
            0x28 => Some(Gauge::BatVol),
            0x29 => Some(Gauge::AfrPri),
            0x2A => Some(Gauge::EgoCorrect),
            0x2B => Some(Gauge::IatCorrect),
            0x2C => Some(Gauge::WueCorrect),
            0x2D => Some(Gauge::Rpm),
            0x2E => Some(Gauge::AccelEnrich),
            0x2F => Some(Gauge::GammeE),
            0x30 => Some(Gauge::Ve),
            0x31 => Some(Gauge::AfrTarget),
            0x32 => Some(Gauge::PulseWidth1),
            0x33 => Some(Gauge::TpsDot),
            0x34 => Some(Gauge::CurSparkAdvance),
            0x35 => Some(Gauge::Tps),
            0x36 => Some(Gauge::LoopPs),
            0x37 => Some(Gauge::FreeMem),
            0x38 => Some(Gauge::BoostTarget),
            0x39 => Some(Gauge::BoostPwm),
            0x3A => Some(Gauge::StaSpark),
            0x3B => Some(Gauge::RpmDot),
            0x3C => Some(Gauge::EthanolPercent),
            0x3D => Some(Gauge::FlexCorrect),
            0x3E => Some(Gauge::FlexIgnCorrect),
            0x3F => Some(Gauge::IdleLoad),
            0x40 => Some(Gauge::TestOutputs),
            0x41 => Some(Gauge::AfrSec),
            0x42 => Some(Gauge::Baro),
            0x43 => Some(Gauge::TpsAdc),
            0x44 => Some(Gauge::NextError),
            0x45 => Some(Gauge::StaLaunchCorrect),
            0x46 => Some(Gauge::PulseWidth2),
            0x47 => Some(Gauge::PulseWidth3),
            0x48 => Some(Gauge::PulseWidth4),
            0x49 => Some(Gauge::StaStatus2),
            0x4A => Some(Gauge::EngProtectSta),
            0x4B => Some(Gauge::FuelLoad),
            0x4C => Some(Gauge::IgnLoad),
            0x4D => Some(Gauge::InjAngle),
            0x4E => Some(Gauge::IdleDuty),
            0x4F => Some(Gauge::ClIdleTarget),
            0x50 => Some(Gauge::MapDot),
            0x51 => Some(Gauge::VvtAngle),
            0x52 => Some(Gauge::VvtTargetAngle),
            0x53 => Some(Gauge::VvtDuty),
            0x54 => Some(Gauge::FlexBoostCorrect),
            0x55 => Some(Gauge::BaroCorrection),
            0x56 => Some(Gauge::Ase),
            0x57 => Some(Gauge::Vss),
            0x58 => Some(Gauge::Gear),
            0x59 => Some(Gauge::FuelPres),
            0x5A => Some(Gauge::OilPres),
            0x5B => Some(Gauge::WmiPw),
            0x5C => Some(Gauge::StaStatus4),
            0x5D => Some(Gauge::VvtAngle2),
            0x5E => Some(Gauge::VvtTargetAngle2),
            0x5F => Some(Gauge::VvtDuty2),
            0x60 => Some(Gauge::StatusOutSta),
            0x61 => Some(Gauge::FlexFuelTemp),
            0x62 => Some(Gauge::FuelTempCorrect),
            0x63 => Some(Gauge::Ve1),
            0x64 => Some(Gauge::Ve2),
            0x66 => Some(Gauge::Advance1),
            0x67 => Some(Gauge::Advance2),
            0x68 => Some(Gauge::NitroSta),
            0x69 => Some(Gauge::SdSta),
            0x70 => Some(Gauge::Masteralive),
            _ => None,
        }
    }

    /// This gauge's wire width: sixteen bits for the handful of two-byte
    /// channels, eight bits for the rest.
    pub fn data_width(&self) -> (r: DataWidth)
        ensures
            *self is RpmDot ==> r is I16,
            (*self is ManifoldPressure || *self is Rpm || *self is PulseWidth1 || *self is LoopPs
                || *self is FreeMem || *self is FuelLoad || *self is IgnLoad || *self is InjAngle
                || *self is FlexBoostCorrect || *self is Vss) ==> r is U16,
            !(*self is RpmDot || *self is ManifoldPressure || *self is Rpm || *self is PulseWidth1
                || *self is LoopPs || *self is FreeMem || *self is FuelLoad || *self is IgnLoad
                || *self is InjAngle || *self is FlexBoostCorrect || *self is Vss) ==> r is U8,
    {
        match self {
            Gauge::RpmDot => DataWidth::I16,
            Gauge::ManifoldPressure | Gauge::Rpm | Gauge::PulseWidth1 | Gauge::LoopPs | Gauge::FreeMem
            | Gauge::FuelLoad | Gauge::IgnLoad | Gauge::InjAngle | Gauge::FlexBoostCorrect
            | Gauge::Vss => DataWidth::U16,
            _ => DataWidth::U8,
        }
    }
}

/// The full registry: one cell per gauge, each initialised with its id
/// and wire width and a zero value.
#[derive(Debug, Clone, Copy, PartialEq, Eq, Structural)]
pub struct GaugeBank {
    pub sta_time: GaugeData,
    pub sta_status1: GaugeData,
    pub sta_eng: GaugeData,
    pub dwell: GaugeData,
    pub manifold_pressure: GaugeData,
    pub iat: GaugeData,
    pub clnt: GaugeData,
    pub bat_correct: GaugeData,
    pub bat_vol: GaugeData,
    pub afr_pri: GaugeData,
    pub ego_correct: GaugeData,
    pub iat_correct: GaugeData,
    pub wue_correct: GaugeData,
    pub rpm: GaugeData,
    pub accel_enrich: GaugeData,
    pub gamme_e: GaugeData,
    pub ve: GaugeData,
    pub afr_target: GaugeData,
    pub pulse_width1: GaugeData,
    pub tps_dot: GaugeData,
    pub cur_spark_advance: GaugeData,
    pub tps: GaugeData,
    pub loop_ps: GaugeData,
    pub free_mem: GaugeData,
    pub boost_target: GaugeData,
    pub boost_pwm: GaugeData,
    pub sta_spark: GaugeData,
    pub rpm_dot: GaugeData,
    pub ethanol_percent: GaugeData,
    pub flex_correct: GaugeData,
    pub flex_ign_correct: GaugeData,
    pub idle_load: GaugeData,
    pub test_outputs: GaugeData,
    pub afr_sec: GaugeData,
    pub baro: GaugeData,
    pub tps_adc: GaugeData,
    pub next_error: GaugeData,
    pub sta_launch_correct: GaugeData,
    pub pulse_width2: GaugeData,
    pub pulse_width3: GaugeData,
    pub pulse_width4: GaugeData,
    pub sta_status2: GaugeData,
    pub eng_protect_sta: GaugeData,
    pub fuel_load: GaugeData,
    pub ign_load: GaugeData,
    pub inj_angle: GaugeData,
    pub idle_duty: GaugeData,
    pub cl_idle_target: GaugeData,
    pub map_dot: GaugeData,
    pub vvt_angle: GaugeData,
    pub vvt_target_angle: GaugeData,
    pub vvt_duty: GaugeData,
    pub flex_boost_correct: GaugeData,
    pub baro_correction: GaugeData,
    pub ase: GaugeData,
    pub vss: GaugeData,
    pub gear: GaugeData,
    pub fuel_pres: GaugeData,
    pub oil_pres: GaugeData,
    pub wmi_pw: GaugeData,
    pub sta_status4: GaugeData,
    pub vvt_angle2: GaugeData,
    pub vvt_target_angle2: GaugeData,
    pub vvt_duty2: GaugeData,
    pub status_out_sta: GaugeData,
    pub flex_fuel_temp: GaugeData,
    pub fuel_temp_correct: GaugeData,
    pub ve1: GaugeData,
    pub ve2: GaugeData,
    pub advance1: GaugeData,
    pub advance2: GaugeData,
    pub nitro_sta: GaugeData,
    pub sd_sta: GaugeData,
    pub masteralive: GaugeData,
}

impl GaugeBank {
    /// The registry at boot: every gauge zeroed.
    pub open spec fn spec_initial() -> GaugeBank {
        GaugeBank {
            sta_time: GaugeData { id: 0x20u16, width: DataWidth::U8, value: 0u32 },
            sta_status1: GaugeData { id: 0x21u16, width: DataWidth::U8, value: 0u32 },
            sta_eng: GaugeData { id: 0x22u16, width: DataWidth::U8, value: 0u32 },
            dwell: GaugeData { id: 0x23u16, width: DataWidth::U8, value: 0u32 },
            manifold_pressure: GaugeData { id: 0x24u16, width: DataWidth::U16, value: 0u32 },
            iat: GaugeData { id: 0x25u16, width: DataWidth::U8, value: 0u32 },
            clnt: GaugeData { id: 0x26u16, width: DataWidth::U8, value: 0u32 },
            bat_correct: GaugeData { id: 0x27u16, width: DataWidth::U8, value: 0u32 },
            bat_vol: GaugeData { id: 0x28u16, width: DataWidth::U8, value: 0u32 },
            afr_pri: GaugeData { id: 0x29u16, width: DataWidth::U8, value: 0u32 },
            ego_correct: GaugeData { id: 0x2Au16, width: DataWidth::U8, value: 0u32 },
            iat_correct: GaugeData { id: 0x2Bu16, width: DataWidth::U8, value: 0u32 },
            wue_correct: GaugeData { id: 0x2Cu16, width: DataWidth::U8, value: 0u32 },
            rpm: GaugeData { id: 0x2Du16, width: DataWidth::U16, value: 0u32 },
            accel_enrich: GaugeData { id: 0x2Eu16, width: DataWidth::U8, value: 0u32 },
            gamme_e: GaugeData { id: 0x2Fu16, width: DataWidth::U8, value: 0u32 },
            ve: GaugeData { id: 0x30u16, width: DataWidth::U8, value: 0u32 },
            afr_target: GaugeData { id: 0x31u16, width: DataWidth::U8, value: 0u32 },
            pulse_width1: GaugeData { id: 0x32u16, width: DataWidth::U16, value: 0u32 },
            tps_dot: GaugeData { id: 0x33u16, width: DataWidth::U8, value: 0u32 },
            cur_spark_advance: GaugeData { id: 0x34u16, width: DataWidth::U8, value: 0u32 },
            tps: GaugeData { id: 0x35u16, width: DataWidth::U8, value: 0u32 },
            loop_ps: GaugeData { id: 0x36u16, width: DataWidth::U16, value: 0u32 },
            free_mem: GaugeData { id: 0x37u16, width: DataWidth::U16, value: 0u32 },
            boost_target: GaugeData { id: 0x38u16, width: DataWidth::U8, value: 0u32 },
            boost_pwm: GaugeData { id: 0x39u16, width: DataWidth::U8, value: 0u32 },
            sta_spark: GaugeData { id: 0x3Au16, width: DataWidth::U8, value: 0u32 },
            rpm_dot: GaugeData { id: 0x3Bu16, width: DataWidth::I16, value: 0u32 },
            ethanol_percent: GaugeData { id: 0x3Cu16, width: DataWidth::U8, value: 0u32 },
            flex_correct: GaugeData { id: 0x3Du16, width: DataWidth::U8, value: 0u32 },
            flex_ign_correct: GaugeData { id: 0x3Eu16, width: DataWidth::U8, value: 0u32 },
            idle_load: GaugeData { id: 0x3Fu16, width: DataWidth::U8, value: 0u32 },
            test_outputs: GaugeData { id: 0x40u16, width: DataWidth::U8, value: 0u32 },
            afr_sec: GaugeData { id: 0x41u16, width: DataWidth::U8, value: 0u32 },
            baro: GaugeData { id: 0x42u16, width: DataWidth::U8, value: 0u32 },
            tps_adc: GaugeData { id: 0x43u16, width: DataWidth::U8, value: 0u32 },
            next_error: GaugeData { id: 0x44u16, width: DataWidth::U8, value: 0u32 },
            sta_launch_correct: GaugeData { id: 0x45u16, width: DataWidth::U8, value: 0u32 },
            pulse_width2: GaugeData { id: 0x46u16, width: DataWidth::U8, value: 0u32 },
            pulse_width3: GaugeData { id: 0x47u16, width: DataWidth::U8, value: 0u32 },
            pulse_width4: GaugeData { id: 0x48u16, width: DataWidth::U8, value: 0u32 },
            sta_status2: GaugeData { id: 0x49u16, width: DataWidth::U8, value: 0u32 },
            eng_protect_sta: GaugeData { id: 0x4Au16, width: DataWidth::U8, value: 0u32 },
            fuel_load: GaugeData { id: 0x4Bu16, width: DataWidth::U16, value: 0u32 },
            ign_load: GaugeData { id: 0x4Cu16, width: DataWidth::U16, value: 0u32 },
            inj_angle: GaugeData { id: 0x4Du16, width: DataWidth::U16, value: 0u32 },
            idle_duty: GaugeData { id: 0x4Eu16, width: DataWidth::U8, value: 0u32 },
            cl_idle_target: GaugeData { id: 0x4Fu16, width: DataWidth::U8, value: 0u32 },
            map_dot: GaugeData { id: 0x50u16, width: DataWidth::U8, value: 0u32 },
            vvt_angle: GaugeData { id: 0x51u16, width: DataWidth::U8, value: 0u32 },
            vvt_target_angle: GaugeData { id: 0x52u16, width: DataWidth::U8, value: 0u32 },
            vvt_duty: GaugeData { id: 0x53u16, width: DataWidth::U8, value: 0u32 },
            flex_boost_correct: GaugeData { id: 0x54u16, width: DataWidth::U16, value: 0u32 },
            baro_correction: GaugeData { id: 0x55u16, width: DataWidth::U8, value: 0u32 },
            ase: GaugeData { id: 0x56u16, width: DataWidth::U8, value: 0u32 },
            vss: GaugeData { id: 0x57u16, width: DataWidth::U16, value: 0u32 },
            gear: GaugeData { id: 0x58u16, width: DataWidth::U8, value: 0u32 },
            fuel_pres: GaugeData { id: 0x59u16, width: DataWidth::U8, value: 0u32 },
            oil_pres: GaugeData { id: 0x5Au16, width: DataWidth::U8, value: 0u32 },
            wmi_pw: GaugeData { id: 0x5Bu16, width: DataWidth::U8, value: 0u32 },
            sta_status4: GaugeData { id: 0x5Cu16, width: DataWidth::U8, value: 0u32 },
            vvt_angle2: GaugeData { id: 0x5Du16, width: DataWidth::U8, value: 0u32 },
            vvt_target_angle2: GaugeData { id: 0x5Eu16, width: DataWidth::U8, value: 0u32 },
            vvt_duty2: GaugeData { id: 0x5Fu16, width: DataWidth::U8, value: 0u32 },
            status_out_sta: GaugeData { id: 0x60u16, width: DataWidth::U8, value: 0u32 },
            flex_fuel_temp: GaugeData { id: 0x61u16, width: DataWidth::U8, value: 0u32 },
            fuel_temp_correct: GaugeData { id: 0x62u16, width: DataWidth::U8, value: 0u32 },
            ve1: GaugeData { id: 0x63u16, width: DataWidth::U8, value: 0u32 },
            ve2: GaugeData { id: 0x64u16, width: DataWidth::U8, value: 0u32 },
            advance1: GaugeData { id: 0x66u16, width: DataWidth::U8, value: 0u32 },
            advance2: GaugeData { id: 0x67u16, width: DataWidth::U8, value: 0u32 },
            nitro_sta: GaugeData { id: 0x68u16, width: DataWidth::U8, value: 0u32 },
            sd_sta: GaugeData { id: 0x69u16, width: DataWidth::U8, value: 0u32 },
            masteralive: GaugeData { id: 0x70u16, width: DataWidth::U8, value: 0u32 },
        }
    }

    /// Build the registry with every gauge at zero.
    pub fn new() -> (r: GaugeBank)
        ensures
            r == GaugeBank::spec_initial(),
    {
        GaugeBank {
            sta_time: GaugeData::new(0x20, DataWidth::U8, 0),
            sta_status1: GaugeData::new(0x21, DataWidth::U8, 0),
            sta_eng: GaugeData::new(0x22, DataWidth::U8, 0),
            dwell: GaugeData::new(0x23, DataWidth::U8, 0),
            manifold_pressure: GaugeData::new(0x24, DataWidth::U16, 0),
            iat: GaugeData::new(0x25, DataWidth::U8, 0),
            clnt: GaugeData::new(0x26, DataWidth::U8, 0),
            bat_correct: GaugeData::new(0x27, DataWidth::U8, 0),
            bat_vol: GaugeData::new(0x28, DataWidth::U8, 0),
            afr_pri: GaugeData::new(0x29, DataWidth::U8, 0),
            ego_correct: GaugeData::new(0x2A, DataWidth::U8, 0),
            iat_correct: GaugeData::new(0x2B, DataWidth::U8, 0),
            wue_correct: GaugeData::new(0x2C, DataWidth::U8, 0),
            rpm: GaugeData::new(0x2D, DataWidth::U16, 0),
            accel_enrich: GaugeData::new(0x2E, DataWidth::U8, 0),
            gamme_e: GaugeData::new(0x2F, DataWidth::U8, 0),
            ve: GaugeData::new(0x30, DataWidth::U8, 0),
            afr_target: GaugeData::new(0x31, DataWidth::U8, 0),
            pulse_width1: GaugeData::new(0x32, DataWidth::U16, 0),
            tps_dot: GaugeData::new(0x33, DataWidth::U8, 0),
            cur_spark_advance: GaugeData::new(0x34, DataWidth::U8, 0),
            tps: GaugeData::new(0x35, DataWidth::U8, 0),
            loop_ps: GaugeData::new(0x36, DataWidth::U16, 0),
            free_mem: GaugeData::new(0x37, DataWidth::U16, 0),
            boost_target: GaugeData::new(0x38, DataWidth::U8, 0),
            boost_pwm: GaugeData::new(0x39, DataWidth::U8, 0),
            sta_spark: GaugeData::new(0x3A, DataWidth::U8, 0),
            rpm_dot: GaugeData::new(0x3B, DataWidth::I16, 0),
            ethanol_percent: GaugeData::new(0x3C, DataWidth::U8, 0),
            flex_correct: GaugeData::new(0x3D, DataWidth::U8, 0),
            flex_ign_correct: GaugeData::new(0x3E, DataWidth::U8, 0),
            idle_load: GaugeData::new(0x3F, DataWidth::U8, 0),
            test_outputs: GaugeData::new(0x40, DataWidth::U8, 0),
            afr_sec: GaugeData::new(0x41, DataWidth::U8, 0),
            baro: GaugeData::new(0x42, DataWidth::U8, 0),
            tps_adc: GaugeData::new(0x43, DataWidth::U8, 0),
            next_error: GaugeData::new(0x44, DataWidth::U8, 0),
            sta_launch_correct: GaugeData::new(0x45, DataWidth::U8, 0),
            pulse_width2: GaugeData::new(0x46, DataWidth::U8, 0),
            pulse_width3: GaugeData::new(0x47, DataWidth::U8, 0),
            pulse_width4: GaugeData::new(0x48, DataWidth::U8, 0),
            sta_status2: GaugeData::new(0x49, DataWidth::U8, 0),
            eng_protect_sta: GaugeData::new(0x4A, DataWidth::U8, 0),
            fuel_load: GaugeData::new(0x4B, DataWidth::U16, 0),
            ign_load: GaugeData::new(0x4C, DataWidth::U16, 0),
            inj_angle: GaugeData::new(0x4D, DataWidth::U16, 0),
            idle_duty: GaugeData::new(0x4E, DataWidth::U8, 0),
            cl_idle_target: GaugeData::new(0x4F, DataWidth::U8, 0),
            map_dot: GaugeData::new(0x50, DataWidth::U8, 0),
            vvt_angle: GaugeData::new(0x51, DataWidth::U8, 0),
            vvt_target_angle: GaugeData::new(0x52, DataWidth::U8, 0),
            vvt_duty: GaugeData::new(0x53, DataWidth::U8, 0),
            flex_boost_correct: GaugeData::new(0x54, DataWidth::U16, 0),
            baro_correction: GaugeData::new(0x55, DataWidth::U8, 0),
            ase: GaugeData::new(0x56, DataWidth::U8, 0),
            vss: GaugeData::new(0x57, DataWidth::U16, 0),
            gear: GaugeData::new(0x58, DataWidth::U8, 0),
            fuel_pres: GaugeData::new(0x59, DataWidth::U8, 0),
            oil_pres: GaugeData::new(0x5A, DataWidth::U8, 0),
            wmi_pw: GaugeData::new(0x5B, DataWidth::U8, 0),
            sta_status4: GaugeData::new(0x5C, DataWidth::U8, 0),
            vvt_angle2: GaugeData::new(0x5D, DataWidth::U8, 0),
            vvt_target_angle2: GaugeData::new(0x5E, DataWidth::U8, 0),
            vvt_duty2: GaugeData::new(0x5F, DataWidth::U8, 0),
            status_out_sta: GaugeData::new(0x60, DataWidth::U8, 0),
            flex_fuel_temp: GaugeData::new(0x61, DataWidth::U8, 0),
            fuel_temp_correct: GaugeData::new(0x62, DataWidth::U8, 0),
            ve1: GaugeData::new(0x63, DataWidth::U8, 0),
            ve2: GaugeData::new(0x64, DataWidth::U8, 0),
            advance1: GaugeData::new(0x66, DataWidth::U8, 0),
            advance2: GaugeData::new(0x67, DataWidth::U8, 0),
            nitro_sta: GaugeData::new(0x68, DataWidth::U8, 0),
            sd_sta: GaugeData::new(0x69, DataWidth::U8, 0),
            masteralive: GaugeData::new(0x70, DataWidth::U8, 0),
        }
    }

    /// The cell a gauge names.
    pub open spec fn spec_raw_gauge(&self, gauge: Gauge) -> GaugeData {
        match gauge {
            Gauge::StaTime => self.sta_time,
            Gauge::StaStatus1 => self.sta_status1,
            Gauge::StaEng => self.sta_eng,
            Gauge::Dwell => self.dwell,
            Gauge::ManifoldPressure => self.manifold_pressure,
            Gauge::Iat => self.iat,
            Gauge::Clnt => self.clnt,
            Gauge::BatCorrect => self.bat_correct,
            Gauge::BatVol => self.bat_vol,
            Gauge::AfrPri => self.afr_pri,
            Gauge::EgoCorrect => self.ego_correct,
            Gauge::IatCorrect => self.iat_correct,
            Gauge::WueCorrect => self.wue_correct,
            Gauge::Rpm => self.rpm,
            Gauge::AccelEnrich => self.accel_enrich,
            Gauge::GammeE => self.gamme_e,
            Gauge::Ve => self.ve,
            Gauge::AfrTarget => self.afr_target,
            Gauge::PulseWidth1 => self.pulse_width1,
            Gauge::TpsDot => self.tps_dot,
            Gauge::CurSparkAdvance => self.cur_spark_advance,
            Gauge::Tps => self.tps,
            Gauge::LoopPs => self.loop_ps,
            Gauge::FreeMem => self.free_mem,
            Gauge::BoostTarget => self.boost_target,
            Gauge::BoostPwm => self.boost_pwm,
            Gauge::StaSpark => self.sta_spark,
            Gauge::RpmDot => self.rpm_dot,
            Gauge::EthanolPercent => self.ethanol_percent,
            Gauge::FlexCorrect => self.flex_correct,
            Gauge::FlexIgnCorrect => self.flex_ign_correct,
            Gauge::IdleLoad => self.idle_load,
            Gauge::TestOutputs => self.test_outputs,
            Gauge::AfrSec => self.afr_sec,
            Gauge::Baro => self.baro,
            Gauge::TpsAdc => self.tps_adc,
            Gauge::NextError => self.next_error,
            Gauge::StaLaunchCorrect => self.sta_launch_correct,
            Gauge::PulseWidth2 => self.pulse_width2,
            Gauge::PulseWidth3 => self.pulse_width3,
            Gauge::PulseWidth4 => self.pulse_width4,
            Gauge::StaStatus2 => self.sta_status2,
            Gauge::EngProtectSta => self.eng_protect_sta,
            Gauge::FuelLoad => self.fuel_load,
            Gauge::IgnLoad => self.ign_load,
            Gauge::InjAngle => self.inj_angle,
            Gauge::IdleDuty => self.idle_duty,
            Gauge::ClIdleTarget => self.cl_idle_target,
            Gauge::MapDot => self.map_dot,
            Gauge::VvtAngle => self.vvt_angle,
            Gauge::VvtTargetAngle => self.vvt_target_angle,
            Gauge::VvtDuty => self.vvt_duty,
            Gauge::FlexBoostCorrect => self.flex_boost_correct,
            Gauge::BaroCorrection => self.baro_correction,
            Gauge::Ase => self.ase,
            Gauge::Vss => self.vss,
            Gauge::Gear => self.gear,
            Gauge::FuelPres => self.fuel_pres,
            Gauge::OilPres => self.oil_pres,
            Gauge::WmiPw => self.wmi_pw,
            Gauge::StaStatus4 => self.sta_status4,
            Gauge::VvtAngle2 => self.vvt_angle2,
            Gauge::VvtTargetAngle2 => self.vvt_target_angle2,
            Gauge::VvtDuty2 => self.vvt_duty2,
            Gauge::StatusOutSta => self.status_out_sta,
            Gauge::FlexFuelTemp => self.flex_fuel_temp,
            Gauge::FuelTempCorrect => self.fuel_temp_correct,
            Gauge::Ve1 => self.ve1,
            Gauge::Ve2 => self.ve2,
            Gauge::Advance1 => self.advance1,
            Gauge::Advance2 => self.advance2,
            Gauge::NitroSta => self.nitro_sta,
            Gauge::SdSta => self.sd_sta,
            Gauge::Masteralive => self.masteralive,
        }
    }

    /// Look a gauge's cell up.
    pub fn raw_gauge(&self, gauge: &Gauge) -> (r: &GaugeData)
        ensures
            *r == self.spec_raw_gauge(*gauge),
    {
        match gauge {
            Gauge::StaTime => &self.sta_time,
            Gauge::StaStatus1 => &self.sta_status1,
            Gauge::StaEng => &self.sta_eng,
            Gauge::Dwell => &self.dwell,
            Gauge::ManifoldPressure => &self.manifold_pressure,
            Gauge::Iat => &self.iat,
            Gauge::Clnt => &self.clnt,
            Gauge::BatCorrect => &self.bat_correct,
            Gauge::BatVol => &self.bat_vol,
            Gauge::AfrPri => &self.afr_pri,
            Gauge::EgoCorrect => &self.ego_correct,
            Gauge::IatCorrect => &self.iat_correct,
            Gauge::WueCorrect => &self.wue_correct,
            Gauge::Rpm => &self.rpm,
            Gauge::AccelEnrich => &self.accel_enrich,
            Gauge::GammeE => &self.gamme_e,
            Gauge::Ve => &self.ve,
            Gauge::AfrTarget => &self.afr_target,
            Gauge::PulseWidth1 => &self.pulse_width1,
            Gauge::TpsDot => &self.tps_dot,
            Gauge::CurSparkAdvance => &self.cur_spark_advance,
            Gauge::Tps => &self.tps,
            Gauge::LoopPs => &self.loop_ps,
            Gauge::FreeMem => &self.free_mem,
            Gauge::BoostTarget => &self.boost_target,
            Gauge::BoostPwm => &self.boost_pwm,
            Gauge::StaSpark => &self.sta_spark,
            Gauge::RpmDot => &self.rpm_dot,
            Gauge::EthanolPercent => &self.ethanol_percent,
            Gauge::FlexCorrect => &self.flex_correct,
            Gauge::FlexIgnCorrect => &self.flex_ign_correct,
            Gauge::IdleLoad => &self.idle_load,
            Gauge::TestOutputs => &self.test_outputs,
            Gauge::AfrSec => &self.afr_sec,
            Gauge::Baro => &self.baro,
            Gauge::TpsAdc => &self.tps_adc,
            Gauge::NextError => &self.next_error,
            Gauge::StaLaunchCorrect => &self.sta_launch_correct,
            Gauge::PulseWidth2 => &self.pulse_width2,
            Gauge::PulseWidth3 => &self.pulse_width3,
            Gauge::PulseWidth4 => &self.pulse_width4,
            Gauge::StaStatus2 => &self.sta_status2,
            Gauge::EngProtectSta => &self.eng_protect_sta,
            Gauge::FuelLoad => &self.fuel_load,
            Gauge::IgnLoad => &self.ign_load,
            Gauge::InjAngle => &self.inj_angle,
            Gauge::IdleDuty => &self.idle_duty,
            Gauge::ClIdleTarget => &self.cl_idle_target,
            Gauge::MapDot => &self.map_dot,
            Gauge::VvtAngle => &self.vvt_angle,
            Gauge::VvtTargetAngle => &self.vvt_target_angle,
            Gauge::VvtDuty => &self.vvt_duty,
            Gauge::FlexBoostCorrect => &self.flex_boost_correct,
            Gauge::BaroCorrection => &self.baro_correction,
            Gauge::Ase => &self.ase,
            Gauge::Vss => &self.vss,
            Gauge::Gear => &self.gear,
            Gauge::FuelPres => &self.fuel_pres,
            Gauge::OilPres => &self.oil_pres,
            Gauge::WmiPw => &self.wmi_pw,
            Gauge::StaStatus4 => &self.sta_status4,
            Gauge::VvtAngle2 => &self.vvt_angle2,
            Gauge::VvtTargetAngle2 => &self.vvt_target_angle2,
            Gauge::VvtDuty2 => &self.vvt_duty2,
            Gauge::StatusOutSta => &self.status_out_sta,
            Gauge::FlexFuelTemp => &self.flex_fuel_temp,
            Gauge::FuelTempCorrect => &self.fuel_temp_correct,
            Gauge::Ve1 => &self.ve1,
            Gauge::Ve2 => &self.ve2,
            Gauge::Advance1 => &self.advance1,
            Gauge::Advance2 => &self.advance2,
            Gauge::NitroSta => &self.nitro_sta,
            Gauge::SdSta => &self.sd_sta,
            Gauge::Masteralive => &self.masteralive,
        }
    }
}

/// Decode an `n` telemetry frame into the registry: every channel of the
/// frame lands in its gauge, two-byte channels little-endian.
pub fn speeduino_n_writer(bank: &mut GaugeBank, buf: [u8; 126])
    ensures
        final(bank).sta_time == (GaugeData { value: buf@[3] as u32, ..old(bank).sta_time }),
        final(bank).sta_status1 == (GaugeData { value: buf@[4] as u32, ..old(bank).sta_status1 }),
        final(bank).sta_eng == (GaugeData { value: buf@[5] as u32, ..old(bank).sta_eng }),
        final(bank).dwell == (GaugeData { value: buf@[6] as u32, ..old(bank).dwell }),
        final(bank).manifold_pressure == (GaugeData { value: spec_le_value(buf@.subrange(7, 9)) as u32, ..old(bank).manifold_pressure }),
        final(bank).iat == (GaugeData { value: buf@[9] as u32, ..old(bank).iat }),
        final(bank).clnt == (GaugeData { value: buf@[10] as u32, ..old(bank).clnt }),
        final(bank).bat_correct == (GaugeData { value: buf@[11] as u32, ..old(bank).bat_correct }),
        final(bank).bat_vol == (GaugeData { value: buf@[12] as u32, ..old(bank).bat_vol }),
        final(bank).afr_pri == (GaugeData { value: buf@[13] as u32, ..old(bank).afr_pri }),
        final(bank).ego_correct == (GaugeData { value: buf@[14] as u32, ..old(bank).ego_correct }),
        final(bank).iat_correct == (GaugeData { value: buf@[15] as u32, ..old(bank).iat_correct }),
        final(bank).wue_correct == (GaugeData { value: buf@[16] as u32, ..old(bank).wue_correct }),
        final(bank).rpm == (GaugeData { value: spec_le_value(buf@.subrange(17, 19)) as u32, ..old(bank).rpm }),
        final(bank).accel_enrich == (GaugeData { value: buf@[19] as u32, ..old(bank).accel_enrich }),
        final(bank).gamme_e == (GaugeData { value: buf@[20] as u32, ..old(bank).gamme_e }),
        final(bank).ve == (GaugeData { value: buf@[21] as u32, ..old(bank).ve }),
        final(bank).afr_target == (GaugeData { value: buf@[22] as u32, ..old(bank).afr_target }),
        final(bank).pulse_width1 == (GaugeData { value: spec_le_value(buf@.subrange(23, 25)) as u32, ..old(bank).pulse_width1 }),
        final(bank).tps_dot == (GaugeData { value: buf@[25] as u32, ..old(bank).tps_dot }),
        final(bank).cur_spark_advance == (GaugeData { value: buf@[26] as u32, ..old(bank).cur_spark_advance }),
        final(bank).tps == (GaugeData { value: buf@[27] as u32, ..old(bank).tps }),
        final(bank).loop_ps == (GaugeData { value: spec_le_value(buf@.subrange(28, 30)) as u32, ..old(bank).loop_ps }),
        final(bank).free_mem == (GaugeData { value: spec_le_value(buf@.subrange(30, 32)) as u32, ..old(bank).free_mem }),
        final(bank).boost_target == (GaugeData { value: buf@[32] as u32, ..old(bank).boost_target }),
        final(bank).boost_pwm == (GaugeData { value: buf@[33] as u32, ..old(bank).boost_pwm }),
        final(bank).sta_spark == (GaugeData { value: buf@[34] as u32, ..old(bank).sta_spark }),
        final(bank).rpm_dot == (GaugeData { value: spec_le_value(buf@.subrange(35, 37)) as u32, ..old(bank).rpm_dot }),
        final(bank).ethanol_percent == (GaugeData { value: buf@[37] as u32, ..old(bank).ethanol_percent }),
        final(bank).flex_correct == (GaugeData { value: buf@[38] as u32, ..old(bank).flex_correct }),
        final(bank).flex_ign_correct == (GaugeData { value: buf@[39] as u32, ..old(bank).flex_ign_correct }),
        final(bank).idle_load == (GaugeData { value: buf@[40] as u32, ..old(bank).idle_load }),
        final(bank).test_outputs == (GaugeData { value: buf@[41] as u32, ..old(bank).test_outputs }),
        final(bank).afr_sec == (GaugeData { value: buf@[42] as u32, ..old(bank).afr_sec }),
        final(bank).baro == (GaugeData { value: buf@[43] as u32, ..old(bank).baro }),
        final(bank).tps_adc == (GaugeData { value: buf@[76] as u32, ..old(bank).tps_adc }),
        final(bank).next_error == (GaugeData { value: buf@[77] as u32, ..old(bank).next_error }),
        final(bank).sta_launch_correct == (GaugeData { value: buf@[78] as u32, ..old(bank).sta_launch_correct }),
        final(bank).pulse_width2 == (GaugeData { value: spec_le_value(buf@.subrange(79, 81)) as u32, ..old(bank).pulse_width2 }),
        final(bank).pulse_width3 == (GaugeData { value: spec_le_value(buf@.subrange(81, 83)) as u32, ..old(bank).pulse_width3 }),
        final(bank).pulse_width4 == (GaugeData { value: spec_le_value(buf@.subrange(83, 85)) as u32, ..old(bank).pulse_width4 }),
        final(bank).sta_status2 == (GaugeData { value: buf@[85] as u32, ..old(bank).sta_status2 }),
        final(bank).eng_protect_sta == (GaugeData { value: buf@[86] as u32, ..old(bank).eng_protect_sta }),
        final(bank).fuel_load == (GaugeData { value: spec_le_value(buf@.subrange(87, 89)) as u32, ..old(bank).fuel_load }),
        final(bank).ign_load == (GaugeData { value: spec_le_value(buf@.subrange(89, 91)) as u32, ..old(bank).ign_load }),
        final(bank).inj_angle == (GaugeData { value: spec_le_value(buf@.subrange(91, 93)) as u32, ..old(bank).inj_angle }),
        final(bank).idle_duty == (GaugeData { value: buf@[93] as u32, ..old(bank).idle_duty }),
        final(bank).cl_idle_target == (GaugeData { value: buf@[94] as u32, ..old(bank).cl_idle_target }),
        final(bank).map_dot == (GaugeData { value: buf@[95] as u32, ..old(bank).map_dot }),
        final(bank).vvt_angle == (GaugeData { value: buf@[96] as u32, ..old(bank).vvt_angle }),
        final(bank).vvt_target_angle == (GaugeData { value: buf@[97] as u32, ..old(bank).vvt_target_angle }),
        final(bank).vvt_duty == (GaugeData { value: buf@[98] as u32, ..old(bank).vvt_duty }),
        final(bank).flex_boost_correct == (GaugeData { value: spec_le_value(buf@.subrange(99, 101)) as u32, ..old(bank).flex_boost_correct }),
        final(bank).baro_correction == (GaugeData { value: buf@[101] as u32, ..old(bank).baro_correction }),
        final(bank).ase == (GaugeData { value: buf@[102] as u32, ..old(bank).ase }),
        final(bank).vss == (GaugeData { value: spec_le_value(buf@.subrange(103, 105)) as u32, ..old(bank).vss }),
        final(bank).gear == (GaugeData { value: buf@[105] as u32, ..old(bank).gear }),
        final(bank).fuel_pres == (GaugeData { value: buf@[106] as u32, ..old(bank).fuel_pres }),
        final(bank).oil_pres == (GaugeData { value: buf@[107] as u32, ..old(bank).oil_pres }),
        final(bank).wmi_pw == (GaugeData { value: buf@[108] as u32, ..old(bank).wmi_pw }),
        final(bank).sta_status4 == (GaugeData { value: buf@[109] as u32, ..old(bank).sta_status4 }),
        final(bank).vvt_angle2 == (GaugeData { value: buf@[110] as u32, ..old(bank).vvt_angle2 }),
        final(bank).vvt_target_angle2 == (GaugeData { value: buf@[111] as u32, ..old(bank).vvt_target_angle2 }),
        final(bank).vvt_duty2 == (GaugeData { value: buf@[112] as u32, ..old(bank).vvt_duty2 }),
        final(bank).status_out_sta == (GaugeData { value: buf@[113] as u32, ..old(bank).status_out_sta }),
        final(bank).flex_fuel_temp == (GaugeData { value: buf@[114] as u32, ..old(bank).flex_fuel_temp }),
        final(bank).fuel_temp_correct == (GaugeData { value: buf@[115] as u32, ..old(bank).fuel_temp_correct }),
        final(bank).ve1 == (GaugeData { value: buf@[116] as u32, ..old(bank).ve1 }),
        final(bank).ve2 == (GaugeData { value: buf@[117] as u32, ..old(bank).ve2 }),
        final(bank).advance1 == (GaugeData { value: buf@[118] as u32, ..old(bank).advance1 }),
        final(bank).advance2 == (GaugeData { value: buf@[119] as u32, ..old(bank).advance2 }),
        final(bank).nitro_sta == (GaugeData { value: buf@[120] as u32, ..old(bank).nitro_sta }),
        final(bank).sd_sta == (GaugeData { value: buf@[121] as u32, ..old(bank).sd_sta }),
        final(bank).masteralive == old(bank).masteralive,
{
    let b = buf.as_slice();
    bank.sta_time.set(b[3] as u32);
    bank.sta_status1.set(b[4] as u32);
    bank.sta_eng.set(b[5] as u32);
    bank.dwell.set(b[6] as u32);
    bank.manifold_pressure.set_from_bytes(vstd::slice::slice_subrange(b, 7, 9));
    bank.iat.set(b[9] as u32);
    bank.clnt.set(b[10] as u32);
    bank.bat_correct.set(b[11] as u32);
    bank.bat_vol.set(b[12] as u32);
    bank.afr_pri.set(b[13] as u32);
    bank.ego_correct.set(b[14] as u32);
    bank.iat_correct.set(b[15] as u32);
    bank.wue_correct.set(b[16] as u32);
    bank.rpm.set_from_bytes(vstd::slice::slice_subrange(b, 17, 19));
    bank.accel_enrich.set(b[19] as u32);
    bank.gamme_e.set(b[20] as u32);
    bank.ve.set(b[21] as u32);
    bank.afr_target.set(b[22] as u32);
    bank.pulse_width1.set_from_bytes(vstd::slice::slice_subrange(b, 23, 25));
    bank.tps_dot.set(b[25] as u32);
    bank.cur_spark_advance.set(b[26] as u32);
    bank.tps.set(b[27] as u32);
    bank.loop_ps.set_from_bytes(vstd::slice::slice_subrange(b, 28, 30));
    bank.free_mem.set_from_bytes(vstd::slice::slice_subrange(b, 30, 32));
    bank.boost_target.set(b[32] as u32);
    bank.boost_pwm.set(b[33] as u32);
    bank.sta_spark.set(b[34] as u32);
    bank.rpm_dot.set_from_bytes(vstd::slice::slice_subrange(b, 35, 37));
    bank.ethanol_percent.set(b[37] as u32);
    bank.flex_correct.set(b[38] as u32);
    bank.flex_ign_correct.set(b[39] as u32);
    bank.idle_load.set(b[40] as u32);
    bank.test_outputs.set(b[41] as u32);
    bank.afr_sec.set(b[42] as u32);
    bank.baro.set(b[43] as u32);
    bank.tps_adc.set(b[76] as u32);
    bank.next_error.set(b[77] as u32);
    bank.sta_launch_correct.set(b[78] as u32);
    bank.pulse_width2.set_from_bytes(vstd::slice::slice_subrange(b, 79, 81));
    bank.pulse_width3.set_from_bytes(vstd::slice::slice_subrange(b, 81, 83));
    bank.pulse_width4.set_from_bytes(vstd::slice::slice_subrange(b, 83, 85));
    bank.sta_status2.set(b[85] as u32);
    bank.eng_protect_sta.set(b[86] as u32);
    bank.fuel_load.set_from_bytes(vstd::slice::slice_subrange(b, 87, 89));
    bank.ign_load.set_from_bytes(vstd::slice::slice_subrange(b, 89, 91));
    bank.inj_angle.set_from_bytes(vstd::slice::slice_subrange(b, 91, 93));
    bank.idle_duty.set(b[93] as u32);
    bank.cl_idle_target.set(b[94] as u32);
    bank.map_dot.set(b[95] as u32);
    bank.vvt_angle.set(b[96] as u32);
    bank.vvt_target_angle.set(b[97] as u32);
    bank.vvt_duty.set(b[98] as u32);
    bank.flex_boost_correct.set_from_bytes(vstd::slice::slice_subrange(b, 99, 101));
    bank.baro_correction.set(b[101] as u32);
    bank.ase.set(b[102] as u32);
    bank.vss.set_from_bytes(vstd::slice::slice_subrange(b, 103, 105));
    bank.gear.set(b[105] as u32);
    bank.fuel_pres.set(b[106] as u32);
    bank.oil_pres.set(b[107] as u32);
    bank.wmi_pw.set(b[108] as u32);
    bank.sta_status4.set(b[109] as u32);
    bank.vvt_angle2.set(b[110] as u32);
    bank.vvt_target_angle2.set(b[111] as u32);
    bank.vvt_duty2.set(b[112] as u32);
    bank.status_out_sta.set(b[113] as u32);
    bank.flex_fuel_temp.set(b[114] as u32);
    bank.fuel_temp_correct.set(b[115] as u32);
    bank.ve1.set(b[116] as u32);
    bank.ve2.set(b[117] as u32);
    bank.advance1.set(b[118] as u32);
    bank.advance2.set(b[119] as u32);
    bank.nitro_sta.set(b[120] as u32);
    bank.sd_sta.set(b[121] as u32);
}

/// Decode an `A` telemetry frame into the registry: the frame's leading
/// run of channels plus the ADC throttle position; the rest of the
/// registry keeps its values.
#[allow(non_snake_case)]
pub fn speeduino_A_writer(bank: &mut GaugeBank, buf: [u8; 126])
    ensures
        final(bank).sta_time == (GaugeData { value: buf@[2] as u32, ..old(bank).sta_time }),
        final(bank).sta_status1 == (GaugeData { value: buf@[3] as u32, ..old(bank).sta_status1 }),
        final(bank).sta_eng == (GaugeData { value: buf@[4] as u32, ..old(bank).sta_eng }),
        final(bank).dwell == (GaugeData { value: buf@[5] as u32, ..old(bank).dwell }),
        final(bank).manifold_pressure == (GaugeData { value: spec_le_value(buf@.subrange(6, 8)) as u32, ..old(bank).manifold_pressure }),
        final(bank).iat == (GaugeData { value: buf@[8] as u32, ..old(bank).iat }),
        final(bank).clnt == (GaugeData { value: buf@[9] as u32, ..old(bank).clnt }),
        final(bank).bat_correct == (GaugeData { value: buf@[10] as u32, ..old(bank).bat_correct }),
        final(bank).bat_vol == (GaugeData { value: buf@[11] as u32, ..old(bank).bat_vol }),
        final(bank).afr_pri == (GaugeData { value: buf@[12] as u32, ..old(bank).afr_pri }),
        final(bank).ego_correct == (GaugeData { value: buf@[13] as u32, ..old(bank).ego_correct }),
        final(bank).iat_correct == (GaugeData { value: buf@[14] as u32, ..old(bank).iat_correct }),
        final(bank).wue_correct == (GaugeData { value: buf@[15] as u32, ..old(bank).wue_correct }),
        final(bank).rpm == (GaugeData { value: spec_le_value(buf@.subrange(16, 18)) as u32, ..old(bank).rpm }),
        final(bank).accel_enrich == (GaugeData { value: buf@[18] as u32, ..old(bank).accel_enrich }),
        final(bank).gamme_e == (GaugeData { value: buf@[19] as u32, ..old(bank).gamme_e }),
        final(bank).ve == (GaugeData { value: buf@[20] as u32, ..old(bank).ve }),
        final(bank).afr_target == (GaugeData { value: buf@[21] as u32, ..old(bank).afr_target }),
        final(bank).pulse_width1 == (GaugeData { value: spec_le_value(buf@.subrange(22, 24)) as u32, ..old(bank).pulse_width1 }),
        final(bank).tps_dot == (GaugeData { value: buf@[24] as u32, ..old(bank).tps_dot }),
        final(bank).cur_spark_advance == (GaugeData { value: buf@[25] as u32, ..old(bank).cur_spark_advance }),
        final(bank).tps == (GaugeData { value: buf@[26] as u32, ..old(bank).tps }),
        final(bank).loop_ps == (GaugeData { value: spec_le_value(buf@.subrange(27, 29)) as u32, ..old(bank).loop_ps }),
        final(bank).free_mem == (GaugeData { value: spec_le_value(buf@.subrange(29, 31)) as u32, ..old(bank).free_mem }),
        final(bank).boost_target == (GaugeData { value: buf@[31] as u32, ..old(bank).boost_target }),
        final(bank).boost_pwm == (GaugeData { value: buf@[32] as u32, ..old(bank).boost_pwm }),
        final(bank).sta_spark == (GaugeData { value: buf@[33] as u32, ..old(bank).sta_spark }),
        final(bank).rpm_dot == (GaugeData { value: spec_le_value(buf@.subrange(34, 36)) as u32, ..old(bank).rpm_dot }),
        final(bank).ethanol_percent == (GaugeData { value: buf@[36] as u32, ..old(bank).ethanol_percent }),
        final(bank).flex_correct == (GaugeData { value: buf@[37] as u32, ..old(bank).flex_correct }),
        final(bank).flex_ign_correct == (GaugeData { value: buf@[38] as u32, ..old(bank).flex_ign_correct }),
        final(bank).idle_load == (GaugeData { value: buf@[39] as u32, ..old(bank).idle_load }),
        final(bank).test_outputs == (GaugeData { value: buf@[40] as u32, ..old(bank).test_outputs }),
        final(bank).afr_sec == (GaugeData { value: buf@[41] as u32, ..old(bank).afr_sec }),
        final(bank).baro == (GaugeData { value: buf@[42] as u32, ..old(bank).baro }),
        final(bank).tps_adc == (GaugeData { value: buf@[75] as u32, ..old(bank).tps_adc }),
        final(bank).next_error == old(bank).next_error,
        final(bank).sta_launch_correct == old(bank).sta_launch_correct,
        final(bank).pulse_width2 == old(bank).pulse_width2,
        final(bank).pulse_width3 == old(bank).pulse_width3,
        final(bank).pulse_width4 == old(bank).pulse_width4,
        final(bank).sta_status2 == old(bank).sta_status2,
        final(bank).eng_protect_sta == old(bank).eng_protect_sta,
        final(bank).fuel_load == old(bank).fuel_load,
        final(bank).ign_load == old(bank).ign_load,
        final(bank).inj_angle == old(bank).inj_angle,
        final(bank).idle_duty == old(bank).idle_duty,
        final(bank).cl_idle_target == old(bank).cl_idle_target,
        final(bank).map_dot == old(bank).map_dot,
        final(bank).vvt_angle == old(bank).vvt_angle,
        final(bank).vvt_target_angle == old(bank).vvt_target_angle,
        final(bank).vvt_duty == old(bank).vvt_duty,
        final(bank).flex_boost_correct == old(bank).flex_boost_correct,
        final(bank).baro_correction == old(bank).baro_correction,
        final(bank).ase == old(bank).ase,
        final(bank).vss == old(bank).vss,
        final(bank).gear == old(bank).gear,
        final(bank).fuel_pres == old(bank).fuel_pres,
        final(bank).oil_pres == old(bank).oil_pres,
        final(bank).wmi_pw == old(bank).wmi_pw,
        final(bank).sta_status4 == old(bank).sta_status4,
        final(bank).vvt_angle2 == old(bank).vvt_angle2,
        final(bank).vvt_target_angle2 == old(bank).vvt_target_angle2,
        final(bank).vvt_duty2 == old(bank).vvt_duty2,
        final(bank).status_out_sta == old(bank).status_out_sta,
        final(bank).flex_fuel_temp == old(bank).flex_fuel_temp,
        final(bank).fuel_temp_correct == old(bank).fuel_temp_correct,
        final(bank).ve1 == old(bank).ve1,
        final(bank).ve2 == old(bank).ve2,
        final(bank).advance1 == old(bank).advance1,
        final(bank).advance2 == old(bank).advance2,
        final(bank).nitro_sta == old(bank).nitro_sta,
        final(bank).sd_sta == old(bank).sd_sta,
        final(bank).masteralive == old(bank).masteralive,
{
    let b = buf.as_slice();
    bank.sta_time.set(b[2] as u32);
    bank.sta_status1.set(b[3] as u32);
    bank.sta_eng.set(b[4] as u32);
    bank.dwell.set(b[5] as u32);
    bank.manifold_pressure.set_from_bytes(vstd::slice::slice_subrange(b, 6, 8));
    bank.iat.set(b[8] as u32);
    bank.clnt.set(b[9] as u32);
    bank.bat_correct.set(b[10] as u32);
    bank.bat_vol.set(b[11] as u32);
    bank.afr_pri.set(b[12] as u32);
    bank.ego_correct.set(b[13] as u32);
    bank.iat_correct.set(b[14] as u32);
    bank.wue_correct.set(b[15] as u32);
    bank.rpm.set_from_bytes(vstd::slice::slice_subrange(b, 16, 18));
    bank.accel_enrich.set(b[18] as u32);
    bank.gamme_e.set(b[19] as u32);
    bank.ve.set(b[20] as u32);
    bank.afr_target.set(b[21] as u32);
    bank.pulse_width1.set_from_bytes(vstd::slice::slice_subrange(b, 22, 24));
    bank.tps_dot.set(b[24] as u32);
    bank.cur_spark_advance.set(b[25] as u32);
    bank.tps.set(b[26] as u32);
    bank.loop_ps.set_from_bytes(vstd::slice::slice_subrange(b, 27, 29));
    bank.free_mem.set_from_bytes(vstd::slice::slice_subrange(b, 29, 31));
    bank.boost_target.set(b[31] as u32);
    bank.boost_pwm.set(b[32] as u32);
    bank.sta_spark.set(b[33] as u32);
    bank.rpm_dot.set_from_bytes(vstd::slice::slice_subrange(b, 34, 36));
    bank.ethanol_percent.set(b[36] as u32);
    bank.flex_correct.set(b[37] as u32);
    bank.flex_ign_correct.set(b[38] as u32);
    bank.idle_load.set(b[39] as u32);
    bank.test_outputs.set(b[40] as u32);
    bank.afr_sec.set(b[41] as u32);
    bank.baro.set(b[42] as u32);
    bank.tps_adc.set(b[75] as u32);
}

} // verus!
