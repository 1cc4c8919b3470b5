//! The profile's named field types. Each one is carried on the wire as a
//! base type; a value outside the type's known set is kept as the raw base
//! value, so an unknown value never fails decoding.
use vstd::prelude::*;
use crate::base::BaseType;

verus! {

/// A named FIT profile type that a field may carry.
#[derive(Debug, Clone, Copy, PartialEq, Eq, Structural)]
pub enum ProfileType {
    Activity,
    ActivityClass,
    ActivityLevel,
    ActivitySubtype,
    ActivityType,
    AntNetwork,
    AttitudeStage,
    AttitudeValidity,
    AutoActivityDetect,
    AutoSyncFrequency,
    BacklightMode,
    BacklightTimeout,
    BatteryStatus,
    BodyLocation,
    BpStatus,
    CameraEventType,
    CameraOrientationType,
    ConnectivityCapabilities,
    CourseCapabilities,
    CoursePoint,
    DateMode,
    DateTime,
    DayOfWeek,
    DeviceIndex,
    DisplayHeart,
    DisplayMeasure,
    DisplayOrientation,
    DisplayPosition,
    DisplayPower,
    DiveAlarmType,
    DiveBacklightMode,
    DiveGasStatus,
    Event,
    EventType,
    ExdDataUnits,
    ExdDescriptors,
    ExdDisplayType,
    ExdLayout,
    ExdQualifiers,
    ExerciseCategory,
    File,
    FileFlags,
    FitBaseType,
    FitBaseUnit,
    Gender,
    Goal,
    GoalRecurrence,
    GoalSource,
    HrType,
    HrZoneCalc,
    Intensity,
    Language,
    LapTrigger,
    LeftRightBalance,
    LeftRightBalance100,
    LengthType,
    LocalDateTime,
    LocaltimeIntoDay,
    Manufacturer,
    MesgCount,
    MesgNum,
    MessageIndex,
    PwrZoneCalc,
    Schedule,
    SegmentDeleteStatus,
    SegmentLapStatus,
    SegmentLeaderboardType,
    SegmentSelectionType,
    SensorType,
    SessionTrigger,
    SetType,
    Side,
    SourceType,
    Sport,
    SportBits0,
    SportEvent,
    StrokeType,
    SubSport,
    SwimStroke,
    Switch,
    TimeMode,
    TissueModelType,
    Tone,
    UserLocalId,
    WatchfaceMode,
    WaterType,
    WeatherReport,
    WeatherSevereType,
    WeatherSeverity,
    WeatherStatus,
    Weight,
    WktStepDuration,
    WktStepTarget,
    WorkoutCapabilities,
    WorkoutEquipment,
}

impl ProfileType {
    /// The base type that carries the profile type on the wire.
    pub open spec fn base(self) -> BaseType {
        match self {
            ProfileType::Activity | ProfileType::ActivityClass | ProfileType::ActivityLevel | ProfileType::ActivitySubtype | ProfileType::ActivityType | ProfileType::AntNetwork | ProfileType::AttitudeStage | ProfileType::AutoSyncFrequency | ProfileType::BacklightMode | ProfileType::BodyLocation | ProfileType::BpStatus | ProfileType::CameraEventType | ProfileType::CameraOrientationType | ProfileType::CoursePoint | ProfileType::DateMode | ProfileType::DayOfWeek | ProfileType::DisplayHeart | ProfileType::DisplayMeasure | ProfileType::DisplayOrientation | ProfileType::DisplayPosition | ProfileType::DisplayPower | ProfileType::DiveAlarmType | ProfileType::DiveBacklightMode | ProfileType::DiveGasStatus | ProfileType::Event | ProfileType::EventType | ProfileType::ExdDataUnits | ProfileType::ExdDescriptors | ProfileType::ExdDisplayType | ProfileType::ExdLayout | ProfileType::ExdQualifiers | ProfileType::File | ProfileType::Gender | ProfileType::Goal | ProfileType::GoalRecurrence | ProfileType::GoalSource | ProfileType::HrType | ProfileType::HrZoneCalc | ProfileType::Intensity | ProfileType::Language | ProfileType::LapTrigger | ProfileType::LengthType | ProfileType::MesgCount | ProfileType::PwrZoneCalc | ProfileType::Schedule | ProfileType::SegmentDeleteStatus | ProfileType::SegmentLapStatus | ProfileType::SegmentLeaderboardType | ProfileType::SegmentSelectionType | ProfileType::SensorType | ProfileType::SessionTrigger | ProfileType::Side | ProfileType::SourceType | ProfileType::Sport | ProfileType::SportEvent | ProfileType::StrokeType | ProfileType::SubSport | ProfileType::SwimStroke | ProfileType::Switch | ProfileType::TimeMode | ProfileType::TissueModelType | ProfileType::Tone | ProfileType::WatchfaceMode | ProfileType::WaterType | ProfileType::WeatherReport | ProfileType::WeatherSevereType | ProfileType::WeatherSeverity | ProfileType::WeatherStatus | ProfileType::WktStepDuration | ProfileType::WktStepTarget | ProfileType::WorkoutEquipment => BaseType::Enum,
            ProfileType::AttitudeValidity | ProfileType::ExerciseCategory | ProfileType::FitBaseUnit | ProfileType::LeftRightBalance100 | ProfileType::Manufacturer | ProfileType::MesgNum | ProfileType::MessageIndex | ProfileType::UserLocalId | ProfileType::Weight => BaseType::Uint16,
            ProfileType::AutoActivityDetect | ProfileType::DateTime | ProfileType::LocalDateTime | ProfileType::LocaltimeIntoDay => BaseType::Uint32,
            ProfileType::BacklightTimeout | ProfileType::BatteryStatus | ProfileType::DeviceIndex | ProfileType::FitBaseType | ProfileType::LeftRightBalance | ProfileType::SetType => BaseType::Uint8,
            ProfileType::ConnectivityCapabilities | ProfileType::CourseCapabilities | ProfileType::WorkoutCapabilities => BaseType::Uint32z,
            ProfileType::FileFlags | ProfileType::SportBits0 => BaseType::Uint8z,
        }
    }

    pub fn base_type(&self) -> (r: BaseType)
        ensures
            r == self.base(),
    {
        match self {
            ProfileType::Activity | ProfileType::ActivityClass | ProfileType::ActivityLevel | ProfileType::ActivitySubtype | ProfileType::ActivityType | ProfileType::AntNetwork | ProfileType::AttitudeStage | ProfileType::AutoSyncFrequency | ProfileType::BacklightMode | ProfileType::BodyLocation | ProfileType::BpStatus | ProfileType::CameraEventType | ProfileType::CameraOrientationType | ProfileType::CoursePoint | ProfileType::DateMode | ProfileType::DayOfWeek | ProfileType::DisplayHeart | ProfileType::DisplayMeasure | ProfileType::DisplayOrientation | ProfileType::DisplayPosition | ProfileType::DisplayPower | ProfileType::DiveAlarmType | ProfileType::DiveBacklightMode | ProfileType::DiveGasStatus | ProfileType::Event | ProfileType::EventType | ProfileType::ExdDataUnits | ProfileType::ExdDescriptors | ProfileType::ExdDisplayType | ProfileType::ExdLayout | ProfileType::ExdQualifiers | ProfileType::File | ProfileType::Gender | ProfileType::Goal | ProfileType::GoalRecurrence | ProfileType::GoalSource | ProfileType::HrType | ProfileType::HrZoneCalc | ProfileType::Intensity | ProfileType::Language | ProfileType::LapTrigger | ProfileType::LengthType | ProfileType::MesgCount | ProfileType::PwrZoneCalc | ProfileType::Schedule | ProfileType::SegmentDeleteStatus | ProfileType::SegmentLapStatus | ProfileType::SegmentLeaderboardType | ProfileType::SegmentSelectionType | ProfileType::SensorType | ProfileType::SessionTrigger | ProfileType::Side | ProfileType::SourceType | ProfileType::Sport | ProfileType::SportEvent | ProfileType::StrokeType | ProfileType::SubSport | ProfileType::SwimStroke | ProfileType::Switch | ProfileType::TimeMode | ProfileType::TissueModelType | ProfileType::Tone | ProfileType::WatchfaceMode | ProfileType::WaterType | ProfileType::WeatherReport | ProfileType::WeatherSevereType | ProfileType::WeatherSeverity | ProfileType::WeatherStatus | ProfileType::WktStepDuration | ProfileType::WktStepTarget | ProfileType::WorkoutEquipment => BaseType::Enum,
            ProfileType::AttitudeValidity | ProfileType::ExerciseCategory | ProfileType::FitBaseUnit | ProfileType::LeftRightBalance100 | ProfileType::Manufacturer | ProfileType::MesgNum | ProfileType::MessageIndex | ProfileType::UserLocalId | ProfileType::Weight => BaseType::Uint16,
            ProfileType::AutoActivityDetect | ProfileType::DateTime | ProfileType::LocalDateTime | ProfileType::LocaltimeIntoDay => BaseType::Uint32,
            ProfileType::BacklightTimeout | ProfileType::BatteryStatus | ProfileType::DeviceIndex | ProfileType::FitBaseType | ProfileType::LeftRightBalance | ProfileType::SetType => BaseType::Uint8,
            ProfileType::ConnectivityCapabilities | ProfileType::CourseCapabilities | ProfileType::WorkoutCapabilities => BaseType::Uint32z,
            ProfileType::FileFlags | ProfileType::SportBits0 => BaseType::Uint8z,
        }
    }
}

} // verus!
