//! The profile's message table: for each global message number the fields
//! it defines, each with its base or named type, scale, offset and units.
//! Field numbers that the profile does not define, and messages that it does
//! not know, are kept as raw bytes.
use vstd::prelude::*;
use vstd::slice::slice_to_vec;
use crate::base::{BaseType, Endian};
use crate::error::Error;
use crate::field::{Field, FieldEntry, FieldProfile, Scale, decode_entry, decode_field};
use crate::profile_types::ProfileType;

verus! {

/// All the FIT message types.
#[derive(Debug, Clone)]
pub enum Message {
    FileId(FileId),
    FileCreator(FileCreator),
    TimestampCorrelation(TimestampCorrelation),
    Software(Software),
    SlaveDevice(SlaveDevice),
    Capabilities(Capabilities),
    FileCapabilities(FileCapabilities),
    MesgCapabilities(MesgCapabilities),
    FieldCapabilities(FieldCapabilities),
    DeviceSettings(DeviceSettings),
    UserProfile(UserProfile),
    HrmProfile(HrmProfile),
    SdmProfile(SdmProfile),
    BikeProfile(BikeProfile),
    Connectivity(Connectivity),
    WatchfaceSettings(WatchfaceSettings),
    OhrSettings(OhrSettings),
    ZonesTarget(ZonesTarget),
    Sport(Sport),
    HrZone(HrZone),
    SpeedZone(SpeedZone),
    CadenceZone(CadenceZone),
    PowerZone(PowerZone),
    MetZone(MetZone),
    DiveSettings(DiveSettings),
    DiveAlarm(DiveAlarm),
    DiveGas(DiveGas),
    Goal(Goal),
    Activity(Activity),
    Session(Session),
    Lap(Lap),
    Length(Length),
    Record(Record),
    Event(Event),
    DeviceInfo(DeviceInfo),
    TrainingFile(TrainingFile),
    Hrv(Hrv),
    WeatherConditions(WeatherConditions),
    WeatherAlert(WeatherAlert),
    GpsMetadata(GpsMetadata),
    CameraEvent(CameraEvent),
    GyroscopeData(GyroscopeData),
    AccelerometerData(AccelerometerData),
    MagnetometerData(MagnetometerData),
    BarometerData(BarometerData),
    ThreeDSensorCalibration(ThreeDSensorCalibration),
    OneDSensorCalibration(OneDSensorCalibration),
    VideoFrame(VideoFrame),
    ObdiiData(ObdiiData),
    NmeaSentence(NmeaSentence),
    AviationAttitude(AviationAttitude),
    Video(Video),
    VideoTitle(VideoTitle),
    VideoDescription(VideoDescription),
    VideoClip(VideoClip),
    SetMessage(SetMessage),
    Course(Course),
    CoursePoint(CoursePoint),
    SegmentId(SegmentId),
    SegmentLeaderboardEntry(SegmentLeaderboardEntry),
    SegmentPoint(SegmentPoint),
    SegmentLap(SegmentLap),
    SegmentFile(SegmentFile),
    Workout(Workout),
    WorkoutSession(WorkoutSession),
    WorkoutStep(WorkoutStep),
    ExerciseTitle(ExerciseTitle),
    Schedule(Schedule),
    Totals(Totals),
    WeightScale(WeightScale),
    BloodPressure(BloodPressure),
    MonitoringInfo(MonitoringInfo),
    Monitoring(Monitoring),
    Hr(Hr),
    StressLevel(StressLevel),
    MemoGlob(MemoGlob),
    AntChannelId(AntChannelId),
    AntRx(AntRx),
    AntTx(AntTx),
    ExdScreenConfiguration(ExdScreenConfiguration),
    ExdDataFieldConfiguration(ExdDataFieldConfiguration),
    ExdDataConceptConfiguration(ExdDataConceptConfiguration),
    FieldDescription(FieldDescription),
    DeveloperDataId(DeveloperDataId),
    DiveSummary(DiveSummary),
    Unknown { data: Vec<u8>, mesg_num: u16, field_def_num: u8 },
    /// A developer field: its raw bytes, kept with the developer data index
    /// and field number that its definition gave.
    UnknownDeveloperField { data: Vec<u8>, mesg_num: u16, developer_data_index: u8, field_def_num: u8 },
}

/// What a data record's consumer sees of one decoded message field.
pub struct MessageModel {
    pub mesg_num: u16,
    /// Whether the profile knows the message.
    pub known: bool,
    /// The developer data index, for a developer field.
    pub developer_data_index: Option<u8>,
    pub entry: FieldEntry,
}

/// What decoding the byte run `b` of field `field_def_num` of message
/// `mesg_num` yields, multi-byte values read in byte order `e`.
pub open spec fn decode_message_spec(b: Seq<u8>, mesg_num: u16, field_def_num: u8, e: Endian) -> Result<MessageModel, Error> {
    match decode_entry(Message::profile(mesg_num, field_def_num), field_def_num, b, e) {
        Ok(entry) => Ok(MessageModel { mesg_num, known: Message::is_known(mesg_num), developer_data_index: None, entry }),
        Err(x) => Err(x),
    }
}

/// The message that a developer field with these numbers and bytes gives.
pub open spec fn developer_message(mesg_num: u16, developer_data_index: u8, field_def_num: u8, data: Seq<u8>) -> MessageModel {
    MessageModel {
        mesg_num,
        known: false,
        developer_data_index: Some(developer_data_index),
        entry: FieldEntry::Unknown { num: field_def_num, data },
    }
}

impl Message {
    /// Whether the profile defines the global message number `mesg_num`.
    pub open spec fn is_known(mesg_num: u16) -> bool {
        match mesg_num {
            0 | 49 | 162 | 35 | 106 | 1 | 37 | 38 | 39 | 2 | 3 | 4 | 5 | 6 | 127 | 159 | 188 | 7 | 12 | 8 | 53 | 131 | 9 | 10 | 258 | 262 | 259 | 15 | 34 | 18 | 19 | 101 | 20 | 21 | 23 | 72 | 78 | 128 | 129 | 160 | 161 | 164 | 165 | 208 | 209 | 167 | 210 | 169 | 174 | 177 | 178 | 184 | 185 | 186 | 187 | 225 | 31 | 32 | 148 | 149 | 150 | 142 | 151 | 26 | 158 | 27 | 264 | 28 | 33 | 30 | 51 | 103 | 55 | 132 | 227 | 145 | 82 | 80 | 81 | 200 | 201 | 202 | 206 | 207 | 268 => true,
            _ => false,
        }
    }

    /// The profile entry of field `field_def_num` of message `mesg_num`.
    pub open spec fn profile(mesg_num: u16, field_def_num: u8) -> Option<FieldProfile> {
        match mesg_num {
            0 => FileId::profile(field_def_num),
            49 => FileCreator::profile(field_def_num),
            162 => TimestampCorrelation::profile(field_def_num),
            35 => Software::profile(field_def_num),
            106 => SlaveDevice::profile(field_def_num),
            1 => Capabilities::profile(field_def_num),
            37 => FileCapabilities::profile(field_def_num),
            38 => MesgCapabilities::profile(field_def_num),
            39 => FieldCapabilities::profile(field_def_num),
            2 => DeviceSettings::profile(field_def_num),
            3 => UserProfile::profile(field_def_num),
            4 => HrmProfile::profile(field_def_num),
            5 => SdmProfile::profile(field_def_num),
            6 => BikeProfile::profile(field_def_num),
            127 => Connectivity::profile(field_def_num),
            159 => WatchfaceSettings::profile(field_def_num),
            188 => OhrSettings::profile(field_def_num),
            7 => ZonesTarget::profile(field_def_num),
            12 => Sport::profile(field_def_num),
            8 => HrZone::profile(field_def_num),
            53 => SpeedZone::profile(field_def_num),
            131 => CadenceZone::profile(field_def_num),
            9 => PowerZone::profile(field_def_num),
            10 => MetZone::profile(field_def_num),
            258 => DiveSettings::profile(field_def_num),
            262 => DiveAlarm::profile(field_def_num),
            259 => DiveGas::profile(field_def_num),
            15 => Goal::profile(field_def_num),
            34 => Activity::profile(field_def_num),
            18 => Session::profile(field_def_num),
            19 => Lap::profile(field_def_num),
            101 => Length::profile(field_def_num),
            20 => Record::profile(field_def_num),
            21 => Event::profile(field_def_num),
            23 => DeviceInfo::profile(field_def_num),
            72 => TrainingFile::profile(field_def_num),
            78 => Hrv::profile(field_def_num),
            128 => WeatherConditions::profile(field_def_num),
            129 => WeatherAlert::profile(field_def_num),
            160 => GpsMetadata::profile(field_def_num),
            161 => CameraEvent::profile(field_def_num),
            164 => GyroscopeData::profile(field_def_num),
            165 => AccelerometerData::profile(field_def_num),
            208 => MagnetometerData::profile(field_def_num),
            209 => BarometerData::profile(field_def_num),
            167 => ThreeDSensorCalibration::profile(field_def_num),
            210 => OneDSensorCalibration::profile(field_def_num),
            169 => VideoFrame::profile(field_def_num),
            174 => ObdiiData::profile(field_def_num),
            177 => NmeaSentence::profile(field_def_num),
            178 => AviationAttitude::profile(field_def_num),
            184 => Video::profile(field_def_num),
            185 => VideoTitle::profile(field_def_num),
            186 => VideoDescription::profile(field_def_num),
            187 => VideoClip::profile(field_def_num),
            225 => SetMessage::profile(field_def_num),
            31 => Course::profile(field_def_num),
            32 => CoursePoint::profile(field_def_num),
            148 => SegmentId::profile(field_def_num),
            149 => SegmentLeaderboardEntry::profile(field_def_num),
            150 => SegmentPoint::profile(field_def_num),
            142 => SegmentLap::profile(field_def_num),
            151 => SegmentFile::profile(field_def_num),
            26 => Workout::profile(field_def_num),
            158 => WorkoutSession::profile(field_def_num),
            27 => WorkoutStep::profile(field_def_num),
            264 => ExerciseTitle::profile(field_def_num),
            28 => Schedule::profile(field_def_num),
            33 => Totals::profile(field_def_num),
            30 => WeightScale::profile(field_def_num),
            51 => BloodPressure::profile(field_def_num),
            103 => MonitoringInfo::profile(field_def_num),
            55 => Monitoring::profile(field_def_num),
            132 => Hr::profile(field_def_num),
            227 => StressLevel::profile(field_def_num),
            145 => MemoGlob::profile(field_def_num),
            82 => AntChannelId::profile(field_def_num),
            80 => AntRx::profile(field_def_num),
            81 => AntTx::profile(field_def_num),
            200 => ExdScreenConfiguration::profile(field_def_num),
            201 => ExdDataFieldConfiguration::profile(field_def_num),
            202 => ExdDataConceptConfiguration::profile(field_def_num),
            206 => FieldDescription::profile(field_def_num),
            207 => DeveloperDataId::profile(field_def_num),
            268 => DiveSummary::profile(field_def_num),
            _ => None,
        }
    }

    /// The global message number this value belongs to.
    pub open spec fn mesg_num(&self) -> u16 {
        match self {
            Message::FileId(_) => 0,
            Message::FileCreator(_) => 49,
            Message::TimestampCorrelation(_) => 162,
            Message::Software(_) => 35,
            Message::SlaveDevice(_) => 106,
            Message::Capabilities(_) => 1,
            Message::FileCapabilities(_) => 37,
            Message::MesgCapabilities(_) => 38,
            Message::FieldCapabilities(_) => 39,
            Message::DeviceSettings(_) => 2,
            Message::UserProfile(_) => 3,
            Message::HrmProfile(_) => 4,
            Message::SdmProfile(_) => 5,
            Message::BikeProfile(_) => 6,
            Message::Connectivity(_) => 127,
            Message::WatchfaceSettings(_) => 159,
            Message::OhrSettings(_) => 188,
            Message::ZonesTarget(_) => 7,
            Message::Sport(_) => 12,
            Message::HrZone(_) => 8,
            Message::SpeedZone(_) => 53,
            Message::CadenceZone(_) => 131,
            Message::PowerZone(_) => 9,
            Message::MetZone(_) => 10,
            Message::DiveSettings(_) => 258,
            Message::DiveAlarm(_) => 262,
            Message::DiveGas(_) => 259,
            Message::Goal(_) => 15,
            Message::Activity(_) => 34,
            Message::Session(_) => 18,
            Message::Lap(_) => 19,
            Message::Length(_) => 101,
            Message::Record(_) => 20,
            Message::Event(_) => 21,
            Message::DeviceInfo(_) => 23,
            Message::TrainingFile(_) => 72,
            Message::Hrv(_) => 78,
            Message::WeatherConditions(_) => 128,
            Message::WeatherAlert(_) => 129,
            Message::GpsMetadata(_) => 160,
            Message::CameraEvent(_) => 161,
            Message::GyroscopeData(_) => 164,
            Message::AccelerometerData(_) => 165,
            Message::MagnetometerData(_) => 208,
            Message::BarometerData(_) => 209,
            Message::ThreeDSensorCalibration(_) => 167,
            Message::OneDSensorCalibration(_) => 210,
            Message::VideoFrame(_) => 169,
            Message::ObdiiData(_) => 174,
            Message::NmeaSentence(_) => 177,
            Message::AviationAttitude(_) => 178,
            Message::Video(_) => 184,
            Message::VideoTitle(_) => 185,
            Message::VideoDescription(_) => 186,
            Message::VideoClip(_) => 187,
            Message::SetMessage(_) => 225,
            Message::Course(_) => 31,
            Message::CoursePoint(_) => 32,
            Message::SegmentId(_) => 148,
            Message::SegmentLeaderboardEntry(_) => 149,
            Message::SegmentPoint(_) => 150,
            Message::SegmentLap(_) => 142,
            Message::SegmentFile(_) => 151,
            Message::Workout(_) => 26,
            Message::WorkoutSession(_) => 158,
            Message::WorkoutStep(_) => 27,
            Message::ExerciseTitle(_) => 264,
            Message::Schedule(_) => 28,
            Message::Totals(_) => 33,
            Message::WeightScale(_) => 30,
            Message::BloodPressure(_) => 51,
            Message::MonitoringInfo(_) => 103,
            Message::Monitoring(_) => 55,
            Message::Hr(_) => 132,
            Message::StressLevel(_) => 227,
            Message::MemoGlob(_) => 145,
            Message::AntChannelId(_) => 82,
            Message::AntRx(_) => 80,
            Message::AntTx(_) => 81,
            Message::ExdScreenConfiguration(_) => 200,
            Message::ExdDataFieldConfiguration(_) => 201,
            Message::ExdDataConceptConfiguration(_) => 202,
            Message::FieldDescription(_) => 206,
            Message::DeveloperDataId(_) => 207,
            Message::DiveSummary(_) => 268,
            Message::Unknown { mesg_num, .. } => *mesg_num,
            Message::UnknownDeveloperField { mesg_num, .. } => *mesg_num,
        }
    }

    /// The field this value holds.
    pub open spec fn entry(&self) -> FieldEntry {
        match self {
            Message::FileId(m) => m.entry(),
            Message::FileCreator(m) => m.entry(),
            Message::TimestampCorrelation(m) => m.entry(),
            Message::Software(m) => m.entry(),
            Message::SlaveDevice(m) => m.entry(),
            Message::Capabilities(m) => m.entry(),
            Message::FileCapabilities(m) => m.entry(),
            Message::MesgCapabilities(m) => m.entry(),
            Message::FieldCapabilities(m) => m.entry(),
            Message::DeviceSettings(m) => m.entry(),
            Message::UserProfile(m) => m.entry(),
            Message::HrmProfile(m) => m.entry(),
            Message::SdmProfile(m) => m.entry(),
            Message::BikeProfile(m) => m.entry(),
            Message::Connectivity(m) => m.entry(),
            Message::WatchfaceSettings(m) => m.entry(),
            Message::OhrSettings(m) => m.entry(),
            Message::ZonesTarget(m) => m.entry(),
            Message::Sport(m) => m.entry(),
            Message::HrZone(m) => m.entry(),
            Message::SpeedZone(m) => m.entry(),
            Message::CadenceZone(m) => m.entry(),
            Message::PowerZone(m) => m.entry(),
            Message::MetZone(m) => m.entry(),
            Message::DiveSettings(m) => m.entry(),
            Message::DiveAlarm(m) => m.entry(),
            Message::DiveGas(m) => m.entry(),
            Message::Goal(m) => m.entry(),
            Message::Activity(m) => m.entry(),
            Message::Session(m) => m.entry(),
            Message::Lap(m) => m.entry(),
            Message::Length(m) => m.entry(),
            Message::Record(m) => m.entry(),
            Message::Event(m) => m.entry(),
            Message::DeviceInfo(m) => m.entry(),
            Message::TrainingFile(m) => m.entry(),
            Message::Hrv(m) => m.entry(),
            Message::WeatherConditions(m) => m.entry(),
            Message::WeatherAlert(m) => m.entry(),
            Message::GpsMetadata(m) => m.entry(),
            Message::CameraEvent(m) => m.entry(),
            Message::GyroscopeData(m) => m.entry(),
            Message::AccelerometerData(m) => m.entry(),
            Message::MagnetometerData(m) => m.entry(),
            Message::BarometerData(m) => m.entry(),
            Message::ThreeDSensorCalibration(m) => m.entry(),
            Message::OneDSensorCalibration(m) => m.entry(),
            Message::VideoFrame(m) => m.entry(),
            Message::ObdiiData(m) => m.entry(),
            Message::NmeaSentence(m) => m.entry(),
            Message::AviationAttitude(m) => m.entry(),
            Message::Video(m) => m.entry(),
            Message::VideoTitle(m) => m.entry(),
            Message::VideoDescription(m) => m.entry(),
            Message::VideoClip(m) => m.entry(),
            Message::SetMessage(m) => m.entry(),
            Message::Course(m) => m.entry(),
            Message::CoursePoint(m) => m.entry(),
            Message::SegmentId(m) => m.entry(),
            Message::SegmentLeaderboardEntry(m) => m.entry(),
            Message::SegmentPoint(m) => m.entry(),
            Message::SegmentLap(m) => m.entry(),
            Message::SegmentFile(m) => m.entry(),
            Message::Workout(m) => m.entry(),
            Message::WorkoutSession(m) => m.entry(),
            Message::WorkoutStep(m) => m.entry(),
            Message::ExerciseTitle(m) => m.entry(),
            Message::Schedule(m) => m.entry(),
            Message::Totals(m) => m.entry(),
            Message::WeightScale(m) => m.entry(),
            Message::BloodPressure(m) => m.entry(),
            Message::MonitoringInfo(m) => m.entry(),
            Message::Monitoring(m) => m.entry(),
            Message::Hr(m) => m.entry(),
            Message::StressLevel(m) => m.entry(),
            Message::MemoGlob(m) => m.entry(),
            Message::AntChannelId(m) => m.entry(),
            Message::AntRx(m) => m.entry(),
            Message::AntTx(m) => m.entry(),
            Message::ExdScreenConfiguration(m) => m.entry(),
            Message::ExdDataFieldConfiguration(m) => m.entry(),
            Message::ExdDataConceptConfiguration(m) => m.entry(),
            Message::FieldDescription(m) => m.entry(),
            Message::DeveloperDataId(m) => m.entry(),
            Message::DiveSummary(m) => m.entry(),
            Message::Unknown { data, field_def_num, .. } => FieldEntry::Unknown { num: *field_def_num, data: data@ },
            Message::UnknownDeveloperField { data, field_def_num, .. } => FieldEntry::Unknown { num: *field_def_num, data: data@ },
        }
    }

    pub open spec fn model(&self) -> MessageModel {
        MessageModel {
            mesg_num: self.mesg_num(),
            known: !(self is Unknown) && !(self is UnknownDeveloperField),
            developer_data_index: match self {
                Message::UnknownDeveloperField { developer_data_index, .. } => Some(*developer_data_index),
                _ => None,
            },
            entry: self.entry(),
        }
    }

    /// Decodes the byte run `buffer` of field `field_def_num` of message
    /// `mesg_num`, multi-byte values read in byte order `endian`. A message
    /// number that the profile does not know gives `Message::Unknown` with the
    /// bytes whole; a field number that the message does not define gives the
    /// message's own `Unknown` variant.
    pub fn decode(buffer: &[u8], mesg_num: u16, field_def_num: u8, endian: Endian) -> (r: Result<Message, Error>)
        ensures
            match r {
                Ok(m) => {
                    &&& decode_entry(Self::profile(mesg_num, field_def_num), field_def_num, buffer@, endian)
                        == Ok::<FieldEntry, Error>(m.entry())
                    &&& m.mesg_num() == mesg_num
                    &&& (m is Unknown <==> !Self::is_known(mesg_num))
                    &&& !(m is UnknownDeveloperField)
                    &&& decode_message_spec(buffer@, mesg_num, field_def_num, endian) == Ok::<MessageModel, Error>(m.model())
                },
                Err(x) => decode_entry(Self::profile(mesg_num, field_def_num), field_def_num, buffer@, endian)
                    == Err::<FieldEntry, Error>(x)
                    && decode_message_spec(buffer@, mesg_num, field_def_num, endian) == Err::<MessageModel, Error>(x),
            },
            !Self::is_known(mesg_num) ==> (r matches Ok(Message::Unknown { data, mesg_num: m, field_def_num: f })
                && data@ == buffer@ && m == mesg_num && f == field_def_num),
            Self::is_known(mesg_num) && Self::profile(mesg_num, field_def_num) is None ==> (r is Ok
                && !(r->Ok_0 is Unknown) && r->Ok_0.entry() == FieldEntry::Unknown { num: field_def_num, data: buffer@ }),
    {
        if mesg_num <= 30 {
            Self::decode_from_0(buffer, mesg_num, field_def_num, endian)
        } else if mesg_num <= 128 {
            Self::decode_from_31(buffer, mesg_num, field_def_num, endian)
        } else if mesg_num <= 184 {
            Self::decode_from_129(buffer, mesg_num, field_def_num, endian)
        } else {
            Self::decode_from_185(buffer, mesg_num, field_def_num, endian)
        }
    }

    /// [`Message::decode`] for message numbers from 0 to 30.
    #[verifier::spinoff_prover]
    #[verifier::rlimit(100)]
    fn decode_from_0(buffer: &[u8], mesg_num: u16, field_def_num: u8, endian: Endian) -> (r: Result<Message, Error>)
        requires
            0 <= mesg_num <= 30,
        ensures
            match r {
                Ok(m) => {
                    &&& decode_entry(Self::profile(mesg_num, field_def_num), field_def_num, buffer@, endian)
                        == Ok::<FieldEntry, Error>(m.entry())
                    &&& m.mesg_num() == mesg_num
                    &&& (m is Unknown <==> !Self::is_known(mesg_num))
                    &&& !(m is UnknownDeveloperField)
                    &&& decode_message_spec(buffer@, mesg_num, field_def_num, endian) == Ok::<MessageModel, Error>(m.model())
                },
                Err(x) => decode_entry(Self::profile(mesg_num, field_def_num), field_def_num, buffer@, endian)
                    == Err::<FieldEntry, Error>(x)
                    && decode_message_spec(buffer@, mesg_num, field_def_num, endian) == Err::<MessageModel, Error>(x),
            },
            !Self::is_known(mesg_num) ==> (r matches Ok(Message::Unknown { data, mesg_num: m, field_def_num: f })
                && data@ == buffer@ && m == mesg_num && f == field_def_num),
            Self::is_known(mesg_num) && Self::profile(mesg_num, field_def_num) is None ==> (r is Ok
                && !(r->Ok_0 is Unknown) && r->Ok_0.entry() == FieldEntry::Unknown { num: field_def_num, data: buffer@ }),
    {
        match mesg_num {
            0 => match FileId::decode(buffer, field_def_num, endian) {
                Ok(m) => Ok(Message::FileId(m)),
                Err(x) => Err(x),
            },
            1 => match Capabilities::decode(buffer, field_def_num, endian) {
                Ok(m) => Ok(Message::Capabilities(m)),
                Err(x) => Err(x),
            },
            2 => match DeviceSettings::decode(buffer, field_def_num, endian) {
                Ok(m) => Ok(Message::DeviceSettings(m)),
                Err(x) => Err(x),
            },
            3 => match UserProfile::decode(buffer, field_def_num, endian) {
                Ok(m) => Ok(Message::UserProfile(m)),
                Err(x) => Err(x),
            },
            4 => match HrmProfile::decode(buffer, field_def_num, endian) {
                Ok(m) => Ok(Message::HrmProfile(m)),
                Err(x) => Err(x),
            },
            5 => match SdmProfile::decode(buffer, field_def_num, endian) {
                Ok(m) => Ok(Message::SdmProfile(m)),
                Err(x) => Err(x),
            },
            6 => match BikeProfile::decode(buffer, field_def_num, endian) {
                Ok(m) => Ok(Message::BikeProfile(m)),
                Err(x) => Err(x),
            },
            7 => match ZonesTarget::decode(buffer, field_def_num, endian) {
                Ok(m) => Ok(Message::ZonesTarget(m)),
                Err(x) => Err(x),
            },
            8 => match HrZone::decode(buffer, field_def_num, endian) {
                Ok(m) => Ok(Message::HrZone(m)),
                Err(x) => Err(x),
            },
            9 => match PowerZone::decode(buffer, field_def_num, endian) {
                Ok(m) => Ok(Message::PowerZone(m)),
                Err(x) => Err(x),
            },
            10 => match MetZone::decode(buffer, field_def_num, endian) {
                Ok(m) => Ok(Message::MetZone(m)),
                Err(x) => Err(x),
            },
            12 => match Sport::decode(buffer, field_def_num, endian) {
                Ok(m) => Ok(Message::Sport(m)),
                Err(x) => Err(x),
            },
            15 => match Goal::decode(buffer, field_def_num, endian) {
                Ok(m) => Ok(Message::Goal(m)),
                Err(x) => Err(x),
            },
            18 => match Session::decode(buffer, field_def_num, endian) {
                Ok(m) => Ok(Message::Session(m)),
                Err(x) => Err(x),
            },
            19 => match Lap::decode(buffer, field_def_num, endian) {
                Ok(m) => Ok(Message::Lap(m)),
                Err(x) => Err(x),
            },
            20 => match Record::decode(buffer, field_def_num, endian) {
                Ok(m) => Ok(Message::Record(m)),
                Err(x) => Err(x),
            },
            21 => match Event::decode(buffer, field_def_num, endian) {
                Ok(m) => Ok(Message::Event(m)),
                Err(x) => Err(x),
            },
            23 => match DeviceInfo::decode(buffer, field_def_num, endian) {
                Ok(m) => Ok(Message::DeviceInfo(m)),
                Err(x) => Err(x),
            },
            26 => match Workout::decode(buffer, field_def_num, endian) {
                Ok(m) => Ok(Message::Workout(m)),
                Err(x) => Err(x),
            },
            27 => match WorkoutStep::decode(buffer, field_def_num, endian) {
                Ok(m) => Ok(Message::WorkoutStep(m)),
                Err(x) => Err(x),
            },
            28 => match Schedule::decode(buffer, field_def_num, endian) {
                Ok(m) => Ok(Message::Schedule(m)),
                Err(x) => Err(x),
            },
            30 => match WeightScale::decode(buffer, field_def_num, endian) {
                Ok(m) => Ok(Message::WeightScale(m)),
                Err(x) => Err(x),
            },
            _ => Ok(Message::Unknown { data: slice_to_vec(buffer), mesg_num, field_def_num }),
        }
    }

    /// [`Message::decode`] for message numbers from 31 to 128.
    #[verifier::spinoff_prover]
    #[verifier::rlimit(100)]
    fn decode_from_31(buffer: &[u8], mesg_num: u16, field_def_num: u8, endian: Endian) -> (r: Result<Message, Error>)
        requires
            31 <= mesg_num <= 128,
        ensures
            match r {
                Ok(m) => {
                    &&& decode_entry(Self::profile(mesg_num, field_def_num), field_def_num, buffer@, endian)
                        == Ok::<FieldEntry, Error>(m.entry())
                    &&& m.mesg_num() == mesg_num
                    &&& (m is Unknown <==> !Self::is_known(mesg_num))
                    &&& !(m is UnknownDeveloperField)
                    &&& decode_message_spec(buffer@, mesg_num, field_def_num, endian) == Ok::<MessageModel, Error>(m.model())
                },
                Err(x) => decode_entry(Self::profile(mesg_num, field_def_num), field_def_num, buffer@, endian)
                    == Err::<FieldEntry, Error>(x)
                    && decode_message_spec(buffer@, mesg_num, field_def_num, endian) == Err::<MessageModel, Error>(x),
            },
            !Self::is_known(mesg_num) ==> (r matches Ok(Message::Unknown { data, mesg_num: m, field_def_num: f })
                && data@ == buffer@ && m == mesg_num && f == field_def_num),
            Self::is_known(mesg_num) && Self::profile(mesg_num, field_def_num) is None ==> (r is Ok
                && !(r->Ok_0 is Unknown) && r->Ok_0.entry() == FieldEntry::Unknown { num: field_def_num, data: buffer@ }),
    {
        match mesg_num {
            31 => match Course::decode(buffer, field_def_num, endian) {
                Ok(m) => Ok(Message::Course(m)),
                Err(x) => Err(x),
            },
            32 => match CoursePoint::decode(buffer, field_def_num, endian) {
                Ok(m) => Ok(Message::CoursePoint(m)),
                Err(x) => Err(x),
            },
            33 => match Totals::decode(buffer, field_def_num, endian) {
                Ok(m) => Ok(Message::Totals(m)),
                Err(x) => Err(x),
            },
            34 => match Activity::decode(buffer, field_def_num, endian) {
                Ok(m) => Ok(Message::Activity(m)),
                Err(x) => Err(x),
            },
            35 => match Software::decode(buffer, field_def_num, endian) {
                Ok(m) => Ok(Message::Software(m)),
                Err(x) => Err(x),
            },
            37 => match FileCapabilities::decode(buffer, field_def_num, endian) {
                Ok(m) => Ok(Message::FileCapabilities(m)),
                Err(x) => Err(x),
            },
            38 => match MesgCapabilities::decode(buffer, field_def_num, endian) {
                Ok(m) => Ok(Message::MesgCapabilities(m)),
                Err(x) => Err(x),
            },
            39 => match FieldCapabilities::decode(buffer, field_def_num, endian) {
                Ok(m) => Ok(Message::FieldCapabilities(m)),
                Err(x) => Err(x),
            },
            49 => match FileCreator::decode(buffer, field_def_num, endian) {
                Ok(m) => Ok(Message::FileCreator(m)),
                Err(x) => Err(x),
            },
            51 => match BloodPressure::decode(buffer, field_def_num, endian) {
                Ok(m) => Ok(Message::BloodPressure(m)),
                Err(x) => Err(x),
            },
            53 => match SpeedZone::decode(buffer, field_def_num, endian) {
                Ok(m) => Ok(Message::SpeedZone(m)),
                Err(x) => Err(x),
            },
            55 => match Monitoring::decode(buffer, field_def_num, endian) {
                Ok(m) => Ok(Message::Monitoring(m)),
                Err(x) => Err(x),
            },
            72 => match TrainingFile::decode(buffer, field_def_num, endian) {
                Ok(m) => Ok(Message::TrainingFile(m)),
                Err(x) => Err(x),
            },
            78 => match Hrv::decode(buffer, field_def_num, endian) {
                Ok(m) => Ok(Message::Hrv(m)),
                Err(x) => Err(x),
            },
            80 => match AntRx::decode(buffer, field_def_num, endian) {
                Ok(m) => Ok(Message::AntRx(m)),
                Err(x) => Err(x),
            },
            81 => match AntTx::decode(buffer, field_def_num, endian) {
                Ok(m) => Ok(Message::AntTx(m)),
                Err(x) => Err(x),
            },
            82 => match AntChannelId::decode(buffer, field_def_num, endian) {
                Ok(m) => Ok(Message::AntChannelId(m)),
                Err(x) => Err(x),
            },
            101 => match Length::decode(buffer, field_def_num, endian) {
                Ok(m) => Ok(Message::Length(m)),
                Err(x) => Err(x),
            },
            103 => match MonitoringInfo::decode(buffer, field_def_num, endian) {
                Ok(m) => Ok(Message::MonitoringInfo(m)),
                Err(x) => Err(x),
            },
            106 => match SlaveDevice::decode(buffer, field_def_num, endian) {
                Ok(m) => Ok(Message::SlaveDevice(m)),
                Err(x) => Err(x),
            },
            127 => match Connectivity::decode(buffer, field_def_num, endian) {
                Ok(m) => Ok(Message::Connectivity(m)),
                Err(x) => Err(x),
            },
            128 => match WeatherConditions::decode(buffer, field_def_num, endian) {
                Ok(m) => Ok(Message::WeatherConditions(m)),
                Err(x) => Err(x),
            },
            _ => Ok(Message::Unknown { data: slice_to_vec(buffer), mesg_num, field_def_num }),
        }
    }

    /// [`Message::decode`] for message numbers from 129 to 184.
    #[verifier::spinoff_prover]
    #[verifier::rlimit(100)]
    fn decode_from_129(buffer: &[u8], mesg_num: u16, field_def_num: u8, endian: Endian) -> (r: Result<Message, Error>)
        requires
            129 <= mesg_num <= 184,
        ensures
            match r {
                Ok(m) => {
                    &&& decode_entry(Self::profile(mesg_num, field_def_num), field_def_num, buffer@, endian)
                        == Ok::<FieldEntry, Error>(m.entry())
                    &&& m.mesg_num() == mesg_num
                    &&& (m is Unknown <==> !Self::is_known(mesg_num))
                    &&& !(m is UnknownDeveloperField)
                    &&& decode_message_spec(buffer@, mesg_num, field_def_num, endian) == Ok::<MessageModel, Error>(m.model())
                },
                Err(x) => decode_entry(Self::profile(mesg_num, field_def_num), field_def_num, buffer@, endian)
                    == Err::<FieldEntry, Error>(x)
                    && decode_message_spec(buffer@, mesg_num, field_def_num, endian) == Err::<MessageModel, Error>(x),
            },
            !Self::is_known(mesg_num) ==> (r matches Ok(Message::Unknown { data, mesg_num: m, field_def_num: f })
                && data@ == buffer@ && m == mesg_num && f == field_def_num),
            Self::is_known(mesg_num) && Self::profile(mesg_num, field_def_num) is None ==> (r is Ok
                && !(r->Ok_0 is Unknown) && r->Ok_0.entry() == FieldEntry::Unknown { num: field_def_num, data: buffer@ }),
    {
        match mesg_num {
            129 => match WeatherAlert::decode(buffer, field_def_num, endian) {
                Ok(m) => Ok(Message::WeatherAlert(m)),
                Err(x) => Err(x),
            },
            131 => match CadenceZone::decode(buffer, field_def_num, endian) {
                Ok(m) => Ok(Message::CadenceZone(m)),
                Err(x) => Err(x),
            },
            132 => match Hr::decode(buffer, field_def_num, endian) {
                Ok(m) => Ok(Message::Hr(m)),
                Err(x) => Err(x),
            },
            142 => match SegmentLap::decode(buffer, field_def_num, endian) {
                Ok(m) => Ok(Message::SegmentLap(m)),
                Err(x) => Err(x),
            },
            145 => match MemoGlob::decode(buffer, field_def_num, endian) {
                Ok(m) => Ok(Message::MemoGlob(m)),
                Err(x) => Err(x),
            },
            148 => match SegmentId::decode(buffer, field_def_num, endian) {
                Ok(m) => Ok(Message::SegmentId(m)),
                Err(x) => Err(x),
            },
            149 => match SegmentLeaderboardEntry::decode(buffer, field_def_num, endian) {
                Ok(m) => Ok(Message::SegmentLeaderboardEntry(m)),
                Err(x) => Err(x),
            },
            150 => match SegmentPoint::decode(buffer, field_def_num, endian) {
                Ok(m) => Ok(Message::SegmentPoint(m)),
                Err(x) => Err(x),
            },
            151 => match SegmentFile::decode(buffer, field_def_num, endian) {
                Ok(m) => Ok(Message::SegmentFile(m)),
                Err(x) => Err(x),
            },
            158 => match WorkoutSession::decode(buffer, field_def_num, endian) {
                Ok(m) => Ok(Message::WorkoutSession(m)),
                Err(x) => Err(x),
            },
            159 => match WatchfaceSettings::decode(buffer, field_def_num, endian) {
                Ok(m) => Ok(Message::WatchfaceSettings(m)),
                Err(x) => Err(x),
            },
            160 => match GpsMetadata::decode(buffer, field_def_num, endian) {
                Ok(m) => Ok(Message::GpsMetadata(m)),
                Err(x) => Err(x),
            },
            161 => match CameraEvent::decode(buffer, field_def_num, endian) {
                Ok(m) => Ok(Message::CameraEvent(m)),
                Err(x) => Err(x),
            },
            162 => match TimestampCorrelation::decode(buffer, field_def_num, endian) {
                Ok(m) => Ok(Message::TimestampCorrelation(m)),
                Err(x) => Err(x),
            },
            164 => match GyroscopeData::decode(buffer, field_def_num, endian) {
                Ok(m) => Ok(Message::GyroscopeData(m)),
                Err(x) => Err(x),
            },
            165 => match AccelerometerData::decode(buffer, field_def_num, endian) {
                Ok(m) => Ok(Message::AccelerometerData(m)),
                Err(x) => Err(x),
            },
            167 => match ThreeDSensorCalibration::decode(buffer, field_def_num, endian) {
                Ok(m) => Ok(Message::ThreeDSensorCalibration(m)),
                Err(x) => Err(x),
            },
            169 => match VideoFrame::decode(buffer, field_def_num, endian) {
                Ok(m) => Ok(Message::VideoFrame(m)),
                Err(x) => Err(x),
            },
            174 => match ObdiiData::decode(buffer, field_def_num, endian) {
                Ok(m) => Ok(Message::ObdiiData(m)),
                Err(x) => Err(x),
            },
            177 => match NmeaSentence::decode(buffer, field_def_num, endian) {
                Ok(m) => Ok(Message::NmeaSentence(m)),
                Err(x) => Err(x),
            },
            178 => match AviationAttitude::decode(buffer, field_def_num, endian) {
                Ok(m) => Ok(Message::AviationAttitude(m)),
                Err(x) => Err(x),
            },
            184 => match Video::decode(buffer, field_def_num, endian) {
                Ok(m) => Ok(Message::Video(m)),
                Err(x) => Err(x),
            },
            _ => Ok(Message::Unknown { data: slice_to_vec(buffer), mesg_num, field_def_num }),
        }
    }

    /// [`Message::decode`] for message numbers from 185 to 65535.
    #[verifier::spinoff_prover]
    #[verifier::rlimit(100)]
    fn decode_from_185(buffer: &[u8], mesg_num: u16, field_def_num: u8, endian: Endian) -> (r: Result<Message, Error>)
        requires
            185 <= mesg_num <= 65535,
        ensures
            match r {
                Ok(m) => {
                    &&& decode_entry(Self::profile(mesg_num, field_def_num), field_def_num, buffer@, endian)
                        == Ok::<FieldEntry, Error>(m.entry())
                    &&& m.mesg_num() == mesg_num
                    &&& (m is Unknown <==> !Self::is_known(mesg_num))
                    &&& !(m is UnknownDeveloperField)
                    &&& decode_message_spec(buffer@, mesg_num, field_def_num, endian) == Ok::<MessageModel, Error>(m.model())
                },
                Err(x) => decode_entry(Self::profile(mesg_num, field_def_num), field_def_num, buffer@, endian)
                    == Err::<FieldEntry, Error>(x)
                    && decode_message_spec(buffer@, mesg_num, field_def_num, endian) == Err::<MessageModel, Error>(x),
            },
            !Self::is_known(mesg_num) ==> (r matches Ok(Message::Unknown { data, mesg_num: m, field_def_num: f })
                && data@ == buffer@ && m == mesg_num && f == field_def_num),
            Self::is_known(mesg_num) && Self::profile(mesg_num, field_def_num) is None ==> (r is Ok
                && !(r->Ok_0 is Unknown) && r->Ok_0.entry() == FieldEntry::Unknown { num: field_def_num, data: buffer@ }),
    {
        match mesg_num {
            185 => match VideoTitle::decode(buffer, field_def_num, endian) {
                Ok(m) => Ok(Message::VideoTitle(m)),
                Err(x) => Err(x),
            },
            186 => match VideoDescription::decode(buffer, field_def_num, endian) {
                Ok(m) => Ok(Message::VideoDescription(m)),
                Err(x) => Err(x),
            },
            187 => match VideoClip::decode(buffer, field_def_num, endian) {
                Ok(m) => Ok(Message::VideoClip(m)),
                Err(x) => Err(x),
            },
            188 => match OhrSettings::decode(buffer, field_def_num, endian) {
                Ok(m) => Ok(Message::OhrSettings(m)),
                Err(x) => Err(x),
            },
            200 => match ExdScreenConfiguration::decode(buffer, field_def_num, endian) {
                Ok(m) => Ok(Message::ExdScreenConfiguration(m)),
                Err(x) => Err(x),
            },
            201 => match ExdDataFieldConfiguration::decode(buffer, field_def_num, endian) {
                Ok(m) => Ok(Message::ExdDataFieldConfiguration(m)),
                Err(x) => Err(x),
            },
            202 => match ExdDataConceptConfiguration::decode(buffer, field_def_num, endian) {
                Ok(m) => Ok(Message::ExdDataConceptConfiguration(m)),
                Err(x) => Err(x),
            },
            206 => match FieldDescription::decode(buffer, field_def_num, endian) {
                Ok(m) => Ok(Message::FieldDescription(m)),
                Err(x) => Err(x),
            },
            207 => match DeveloperDataId::decode(buffer, field_def_num, endian) {
                Ok(m) => Ok(Message::DeveloperDataId(m)),
                Err(x) => Err(x),
            },
            208 => match MagnetometerData::decode(buffer, field_def_num, endian) {
                Ok(m) => Ok(Message::MagnetometerData(m)),
                Err(x) => Err(x),
            },
            209 => match BarometerData::decode(buffer, field_def_num, endian) {
                Ok(m) => Ok(Message::BarometerData(m)),
                Err(x) => Err(x),
            },
            210 => match OneDSensorCalibration::decode(buffer, field_def_num, endian) {
                Ok(m) => Ok(Message::OneDSensorCalibration(m)),
                Err(x) => Err(x),
            },
            225 => match SetMessage::decode(buffer, field_def_num, endian) {
                Ok(m) => Ok(Message::SetMessage(m)),
                Err(x) => Err(x),
            },
            227 => match StressLevel::decode(buffer, field_def_num, endian) {
                Ok(m) => Ok(Message::StressLevel(m)),
                Err(x) => Err(x),
            },
            258 => match DiveSettings::decode(buffer, field_def_num, endian) {
                Ok(m) => Ok(Message::DiveSettings(m)),
                Err(x) => Err(x),
            },
            259 => match DiveGas::decode(buffer, field_def_num, endian) {
                Ok(m) => Ok(Message::DiveGas(m)),
                Err(x) => Err(x),
            },
            262 => match DiveAlarm::decode(buffer, field_def_num, endian) {
                Ok(m) => Ok(Message::DiveAlarm(m)),
                Err(x) => Err(x),
            },
            264 => match ExerciseTitle::decode(buffer, field_def_num, endian) {
                Ok(m) => Ok(Message::ExerciseTitle(m)),
                Err(x) => Err(x),
            },
            268 => match DiveSummary::decode(buffer, field_def_num, endian) {
                Ok(m) => Ok(Message::DiveSummary(m)),
                Err(x) => Err(x),
            },
            _ => Ok(Message::Unknown { data: slice_to_vec(buffer), mesg_num, field_def_num }),
        }
    }

}

/// Must be first message in file.
#[derive(Debug, Clone)]
pub enum FileId {
    Type(Field),
    Manufacturer(Field),
    Product(Field),
    SerialNumber(Field),
    /// Only set for files that are can be created/erased.
    TimeCreated(Field),
    /// Only set for files that are not created/erased.
    Number(Field),
    /// Optional free form string to indicate the devices name or model
    ProductName(Field),
    Unknown { data: Vec<u8>, field_def_num: u8 },
}

impl FileId {
    /// The profile entry of each field of this message.
    pub open spec fn profile(field_def_num: u8) -> Option<FieldProfile> {
        match field_def_num {
            0 => Some(FieldProfile { base: BaseType::Enum, profile_type: Some(ProfileType::File), scale: None, offset: None, units: None }),
            1 => Some(FieldProfile { base: BaseType::Uint16, profile_type: Some(ProfileType::Manufacturer), scale: None, offset: None, units: None }),
            2 => Some(FieldProfile { base: BaseType::Uint16, profile_type: None, scale: None, offset: None, units: None }),
            3 => Some(FieldProfile { base: BaseType::Uint32z, profile_type: None, scale: None, offset: None, units: None }),
            4 => Some(FieldProfile { base: BaseType::Uint32, profile_type: Some(ProfileType::DateTime), scale: None, offset: None, units: None }),
            5 => Some(FieldProfile { base: BaseType::Uint16, profile_type: None, scale: None, offset: None, units: None }),
            8 => Some(FieldProfile { base: BaseType::Utf8String, profile_type: None, scale: None, offset: None, units: None }),
            _ => None,
        }
    }

    /// The field this value holds.
    pub open spec fn entry(&self) -> FieldEntry {
        match self {
            FileId::Type(f) => FieldEntry::Known { num: 0, field: f@ },
            FileId::Manufacturer(f) => FieldEntry::Known { num: 1, field: f@ },
            FileId::Product(f) => FieldEntry::Known { num: 2, field: f@ },
            FileId::SerialNumber(f) => FieldEntry::Known { num: 3, field: f@ },
            FileId::TimeCreated(f) => FieldEntry::Known { num: 4, field: f@ },
            FileId::Number(f) => FieldEntry::Known { num: 5, field: f@ },
            FileId::ProductName(f) => FieldEntry::Known { num: 8, field: f@ },
            FileId::Unknown { data, field_def_num } => FieldEntry::Unknown { num: *field_def_num, data: data@ },
        }
    }

    /// Decodes the byte run `buffer` of field `field_def_num` of this message.
    pub fn decode(buffer: &[u8], field_def_num: u8, endian: Endian) -> (r: Result<Self, Error>)
        ensures
            match r {
                Ok(m) => decode_entry(Self::profile(field_def_num), field_def_num, buffer@, endian)
                    == Ok::<FieldEntry, Error>(m.entry()),
                Err(x) => decode_entry(Self::profile(field_def_num), field_def_num, buffer@, endian)
                    == Err::<FieldEntry, Error>(x),
            },
    {
        match field_def_num {
            0 => match decode_field(buffer, endian, FieldProfile { base: BaseType::Enum, profile_type: Some(ProfileType::File), scale: None, offset: None, units: None }) {
                Ok(f) => Ok(FileId::Type(f)),
                Err(x) => Err(x),
            },
            1 => match decode_field(buffer, endian, FieldProfile { base: BaseType::Uint16, profile_type: Some(ProfileType::Manufacturer), scale: None, offset: None, units: None }) {
                Ok(f) => Ok(FileId::Manufacturer(f)),
                Err(x) => Err(x),
            },
            2 => match decode_field(buffer, endian, FieldProfile { base: BaseType::Uint16, profile_type: None, scale: None, offset: None, units: None }) {
                Ok(f) => Ok(FileId::Product(f)),
                Err(x) => Err(x),
            },
            3 => match decode_field(buffer, endian, FieldProfile { base: BaseType::Uint32z, profile_type: None, scale: None, offset: None, units: None }) {
                Ok(f) => Ok(FileId::SerialNumber(f)),
                Err(x) => Err(x),
            },
            4 => match decode_field(buffer, endian, FieldProfile { base: BaseType::Uint32, profile_type: Some(ProfileType::DateTime), scale: None, offset: None, units: None }) {
                Ok(f) => Ok(FileId::TimeCreated(f)),
                Err(x) => Err(x),
            },
            5 => match decode_field(buffer, endian, FieldProfile { base: BaseType::Uint16, profile_type: None, scale: None, offset: None, units: None }) {
                Ok(f) => Ok(FileId::Number(f)),
                Err(x) => Err(x),
            },
            8 => match decode_field(buffer, endian, FieldProfile { base: BaseType::Utf8String, profile_type: None, scale: None, offset: None, units: None }) {
                Ok(f) => Ok(FileId::ProductName(f)),
                Err(x) => Err(x),
            },
            _ => Ok(FileId::Unknown { data: slice_to_vec(buffer), field_def_num }),
        }
    }
}

#[derive(Debug, Clone)]
pub enum FileCreator {
    SoftwareVersion(Field),
    HardwareVersion(Field),
    Unknown { data: Vec<u8>, field_def_num: u8 },
}

impl FileCreator {
    /// The profile entry of each field of this message.
    pub open spec fn profile(field_def_num: u8) -> Option<FieldProfile> {
        match field_def_num {
            0 => Some(FieldProfile { base: BaseType::Uint16, profile_type: None, scale: None, offset: None, units: None }),
            1 => Some(FieldProfile { base: BaseType::Uint8, profile_type: None, scale: None, offset: None, units: None }),
            _ => None,
        }
    }

    /// The field this value holds.
    pub open spec fn entry(&self) -> FieldEntry {
        match self {
            FileCreator::SoftwareVersion(f) => FieldEntry::Known { num: 0, field: f@ },
            FileCreator::HardwareVersion(f) => FieldEntry::Known { num: 1, field: f@ },
            FileCreator::Unknown { data, field_def_num } => FieldEntry::Unknown { num: *field_def_num, data: data@ },
        }
    }

    /// Decodes the byte run `buffer` of field `field_def_num` of this message.
    pub fn decode(buffer: &[u8], field_def_num: u8, endian: Endian) -> (r: Result<Self, Error>)
        ensures
            match r {
                Ok(m) => decode_entry(Self::profile(field_def_num), field_def_num, buffer@, endian)
                    == Ok::<FieldEntry, Error>(m.entry()),
                Err(x) => decode_entry(Self::profile(field_def_num), field_def_num, buffer@, endian)
                    == Err::<FieldEntry, Error>(x),
            },
    {
        match field_def_num {
            0 => match decode_field(buffer, endian, FieldProfile { base: BaseType::Uint16, profile_type: None, scale: None, offset: None, units: None }) {
                Ok(f) => Ok(FileCreator::SoftwareVersion(f)),
                Err(x) => Err(x),
            },
            1 => match decode_field(buffer, endian, FieldProfile { base: BaseType::Uint8, profile_type: None, scale: None, offset: None, units: None }) {
                Ok(f) => Ok(FileCreator::HardwareVersion(f)),
                Err(x) => Err(x),
            },
            _ => Ok(FileCreator::Unknown { data: slice_to_vec(buffer), field_def_num }),
        }
    }
}

#[derive(Debug, Clone)]
pub enum TimestampCorrelation {
    /// Whole second part of UTC timestamp at the time the system timestamp was recorded.
    Timestamp(Field),
    /// Fractional part of the UTC timestamp at the time the system timestamp was recorded.
    FractionalTimestamp(Field),
    /// Whole second part of the system timestamp
    SystemTimestamp(Field),
    /// Fractional part of the system timestamp
    FractionalSystemTimestamp(Field),
    /// timestamp epoch expressed in local time used to convert timestamps to local time
    LocalTimestamp(Field),
    /// Millisecond part of the UTC timestamp at the time the system timestamp was recorded.
    TimestampMs(Field),
    /// Millisecond part of the system timestamp
    SystemTimestampMs(Field),
    Unknown { data: Vec<u8>, field_def_num: u8 },
}

impl TimestampCorrelation {
    /// The profile entry of each field of this message.
    pub open spec fn profile(field_def_num: u8) -> Option<FieldProfile> {
        match field_def_num {
            253 => Some(FieldProfile { base: BaseType::Uint32, profile_type: Some(ProfileType::DateTime), scale: None, offset: None, units: Some("s") }),
            0 => Some(FieldProfile { base: BaseType::Uint16, profile_type: None, scale: Some(Scale { num: 32768, den: 1 }), offset: None, units: Some("s") }),
            1 => Some(FieldProfile { base: BaseType::Uint32, profile_type: Some(ProfileType::DateTime), scale: None, offset: None, units: Some("s") }),
            2 => Some(FieldProfile { base: BaseType::Uint16, profile_type: None, scale: Some(Scale { num: 32768, den: 1 }), offset: None, units: Some("s") }),
            3 => Some(FieldProfile { base: BaseType::Uint32, profile_type: Some(ProfileType::LocalDateTime), scale: None, offset: None, units: Some("s") }),
            4 => Some(FieldProfile { base: BaseType::Uint16, profile_type: None, scale: None, offset: None, units: Some("ms") }),
            5 => Some(FieldProfile { base: BaseType::Uint16, profile_type: None, scale: None, offset: None, units: Some("ms") }),
            _ => None,
        }
    }

    /// The field this value holds.
    pub open spec fn entry(&self) -> FieldEntry {
        match self {
            TimestampCorrelation::Timestamp(f) => FieldEntry::Known { num: 253, field: f@ },
            TimestampCorrelation::FractionalTimestamp(f) => FieldEntry::Known { num: 0, field: f@ },
            TimestampCorrelation::SystemTimestamp(f) => FieldEntry::Known { num: 1, field: f@ },
            TimestampCorrelation::FractionalSystemTimestamp(f) => FieldEntry::Known { num: 2, field: f@ },
            TimestampCorrelation::LocalTimestamp(f) => FieldEntry::Known { num: 3, field: f@ },
            TimestampCorrelation::TimestampMs(f) => FieldEntry::Known { num: 4, field: f@ },
            TimestampCorrelation::SystemTimestampMs(f) => FieldEntry::Known { num: 5, field: f@ },
            TimestampCorrelation::Unknown { data, field_def_num } => FieldEntry::Unknown { num: *field_def_num, data: data@ },
        }
    }

    /// Decodes the byte run `buffer` of field `field_def_num` of this message.
    pub fn decode(buffer: &[u8], field_def_num: u8, endian: Endian) -> (r: Result<Self, Error>)
        ensures
            match r {
                Ok(m) => decode_entry(Self::profile(field_def_num), field_def_num, buffer@, endian)
                    == Ok::<FieldEntry, Error>(m.entry()),
                Err(x) => decode_entry(Self::profile(field_def_num), field_def_num, buffer@, endian)
                    == Err::<FieldEntry, Error>(x),
            },
    {
        match field_def_num {
            253 => match decode_field(buffer, endian, FieldProfile { base: BaseType::Uint32, profile_type: Some(ProfileType::DateTime), scale: None, offset: None, units: Some("s") }) {
                Ok(f) => Ok(TimestampCorrelation::Timestamp(f)),
                Err(x) => Err(x),
            },
            0 => match decode_field(buffer, endian, FieldProfile { base: BaseType::Uint16, profile_type: None, scale: Some(Scale { num: 32768, den: 1 }), offset: None, units: Some("s") }) {
                Ok(f) => Ok(TimestampCorrelation::FractionalTimestamp(f)),
                Err(x) => Err(x),
            },
            1 => match decode_field(buffer, endian, FieldProfile { base: BaseType::Uint32, profile_type: Some(ProfileType::DateTime), scale: None, offset: None, units: Some("s") }) {
                Ok(f) => Ok(TimestampCorrelation::SystemTimestamp(f)),
                Err(x) => Err(x),
            },
            2 => match decode_field(buffer, endian, FieldProfile { base: BaseType::Uint16, profile_type: None, scale: Some(Scale { num: 32768, den: 1 }), offset: None, units: Some("s") }) {
                Ok(f) => Ok(TimestampCorrelation::FractionalSystemTimestamp(f)),
                Err(x) => Err(x),
            },
            3 => match decode_field(buffer, endian, FieldProfile { base: BaseType::Uint32, profile_type: Some(ProfileType::LocalDateTime), scale: None, offset: None, units: Some("s") }) {
                Ok(f) => Ok(TimestampCorrelation::LocalTimestamp(f)),
                Err(x) => Err(x),
            },
            4 => match decode_field(buffer, endian, FieldProfile { base: BaseType::Uint16, profile_type: None, scale: None, offset: None, units: Some("ms") }) {
                Ok(f) => Ok(TimestampCorrelation::TimestampMs(f)),
                Err(x) => Err(x),
            },
            5 => match decode_field(buffer, endian, FieldProfile { base: BaseType::Uint16, profile_type: None, scale: None, offset: None, units: Some("ms") }) {
                Ok(f) => Ok(TimestampCorrelation::SystemTimestampMs(f)),
                Err(x) => Err(x),
            },
            _ => Ok(TimestampCorrelation::Unknown { data: slice_to_vec(buffer), field_def_num }),
        }
    }
}

#[derive(Debug, Clone)]
pub enum Software {
    MessageIndex(Field),
    Version(Field),
    PartNumber(Field),
    Unknown { data: Vec<u8>, field_def_num: u8 },
}

impl Software {
    /// The profile entry of each field of this message.
    pub open spec fn profile(field_def_num: u8) -> Option<FieldProfile> {
        match field_def_num {
            254 => Some(FieldProfile { base: BaseType::Uint16, profile_type: Some(ProfileType::MessageIndex), scale: None, offset: None, units: None }),
            3 => Some(FieldProfile { base: BaseType::Uint16, profile_type: None, scale: Some(Scale { num: 100, den: 1 }), offset: None, units: None }),
            5 => Some(FieldProfile { base: BaseType::Utf8String, profile_type: None, scale: None, offset: None, units: None }),
            _ => None,
        }
    }

    /// The field this value holds.
    pub open spec fn entry(&self) -> FieldEntry {
        match self {
            Software::MessageIndex(f) => FieldEntry::Known { num: 254, field: f@ },
            Software::Version(f) => FieldEntry::Known { num: 3, field: f@ },
            Software::PartNumber(f) => FieldEntry::Known { num: 5, field: f@ },
            Software::Unknown { data, field_def_num } => FieldEntry::Unknown { num: *field_def_num, data: data@ },
        }
    }

    /// Decodes the byte run `buffer` of field `field_def_num` of this message.
    pub fn decode(buffer: &[u8], field_def_num: u8, endian: Endian) -> (r: Result<Self, Error>)
        ensures
            match r {
                Ok(m) => decode_entry(Self::profile(field_def_num), field_def_num, buffer@, endian)
                    == Ok::<FieldEntry, Error>(m.entry()),
                Err(x) => decode_entry(Self::profile(field_def_num), field_def_num, buffer@, endian)
                    == Err::<FieldEntry, Error>(x),
            },
    {
        match field_def_num {
            254 => match decode_field(buffer, endian, FieldProfile { base: BaseType::Uint16, profile_type: Some(ProfileType::MessageIndex), scale: None, offset: None, units: None }) {
                Ok(f) => Ok(Software::MessageIndex(f)),
                Err(x) => Err(x),
            },
            3 => match decode_field(buffer, endian, FieldProfile { base: BaseType::Uint16, profile_type: None, scale: Some(Scale { num: 100, den: 1 }), offset: None, units: None }) {
                Ok(f) => Ok(Software::Version(f)),
                Err(x) => Err(x),
            },
            5 => match decode_field(buffer, endian, FieldProfile { base: BaseType::Utf8String, profile_type: None, scale: None, offset: None, units: None }) {
                Ok(f) => Ok(Software::PartNumber(f)),
                Err(x) => Err(x),
            },
            _ => Ok(Software::Unknown { data: slice_to_vec(buffer), field_def_num }),
        }
    }
}

#[derive(Debug, Clone)]
pub enum SlaveDevice {
    Manufacturer(Field),
    Product(Field),
    Unknown { data: Vec<u8>, field_def_num: u8 },
}

impl SlaveDevice {
    /// The profile entry of each field of this message.
    pub open spec fn profile(field_def_num: u8) -> Option<FieldProfile> {
        match field_def_num {
            0 => Some(FieldProfile { base: BaseType::Uint16, profile_type: Some(ProfileType::Manufacturer), scale: None, offset: None, units: None }),
            1 => Some(FieldProfile { base: BaseType::Uint16, profile_type: None, scale: None, offset: None, units: None }),
            _ => None,
        }
    }

    /// The field this value holds.
    pub open spec fn entry(&self) -> FieldEntry {
        match self {
            SlaveDevice::Manufacturer(f) => FieldEntry::Known { num: 0, field: f@ },
            SlaveDevice::Product(f) => FieldEntry::Known { num: 1, field: f@ },
            SlaveDevice::Unknown { data, field_def_num } => FieldEntry::Unknown { num: *field_def_num, data: data@ },
        }
    }

    /// Decodes the byte run `buffer` of field `field_def_num` of this message.
    pub fn decode(buffer: &[u8], field_def_num: u8, endian: Endian) -> (r: Result<Self, Error>)
        ensures
            match r {
                Ok(m) => decode_entry(Self::profile(field_def_num), field_def_num, buffer@, endian)
                    == Ok::<FieldEntry, Error>(m.entry()),
                Err(x) => decode_entry(Self::profile(field_def_num), field_def_num, buffer@, endian)
                    == Err::<FieldEntry, Error>(x),
            },
    {
        match field_def_num {
            0 => match decode_field(buffer, endian, FieldProfile { base: BaseType::Uint16, profile_type: Some(ProfileType::Manufacturer), scale: None, offset: None, units: None }) {
                Ok(f) => Ok(SlaveDevice::Manufacturer(f)),
                Err(x) => Err(x),
            },
            1 => match decode_field(buffer, endian, FieldProfile { base: BaseType::Uint16, profile_type: None, scale: None, offset: None, units: None }) {
                Ok(f) => Ok(SlaveDevice::Product(f)),
                Err(x) => Err(x),
            },
            _ => Ok(SlaveDevice::Unknown { data: slice_to_vec(buffer), field_def_num }),
        }
    }
}

#[derive(Debug, Clone)]
pub enum Capabilities {
    /// Use language_bits_x types where x is index of array.
    Languages(Field),
    /// Use sport_bits_x types where x is index of array.
    Sports(Field),
    WorkoutsSupported(Field),
    ConnectivitySupported(Field),
    Unknown { data: Vec<u8>, field_def_num: u8 },
}

impl Capabilities {
    /// The profile entry of each field of this message.
    pub open spec fn profile(field_def_num: u8) -> Option<FieldProfile> {
        match field_def_num {
            0 => Some(FieldProfile { base: BaseType::Uint8z, profile_type: None, scale: None, offset: None, units: None }),
            1 => Some(FieldProfile { base: BaseType::Uint8z, profile_type: Some(ProfileType::SportBits0), scale: None, offset: None, units: None }),
            21 => Some(FieldProfile { base: BaseType::Uint32z, profile_type: Some(ProfileType::WorkoutCapabilities), scale: None, offset: None, units: None }),
            23 => Some(FieldProfile { base: BaseType::Uint32z, profile_type: Some(ProfileType::ConnectivityCapabilities), scale: None, offset: None, units: None }),
            _ => None,
        }
    }

    /// The field this value holds.
    pub open spec fn entry(&self) -> FieldEntry {
        match self {
            Capabilities::Languages(f) => FieldEntry::Known { num: 0, field: f@ },
            Capabilities::Sports(f) => FieldEntry::Known { num: 1, field: f@ },
            Capabilities::WorkoutsSupported(f) => FieldEntry::Known { num: 21, field: f@ },
            Capabilities::ConnectivitySupported(f) => FieldEntry::Known { num: 23, field: f@ },
            Capabilities::Unknown { data, field_def_num } => FieldEntry::Unknown { num: *field_def_num, data: data@ },
        }
    }

    /// Decodes the byte run `buffer` of field `field_def_num` of this message.
    pub fn decode(buffer: &[u8], field_def_num: u8, endian: Endian) -> (r: Result<Self, Error>)
        ensures
            match r {
                Ok(m) => decode_entry(Self::profile(field_def_num), field_def_num, buffer@, endian)
                    == Ok::<FieldEntry, Error>(m.entry()),
                Err(x) => decode_entry(Self::profile(field_def_num), field_def_num, buffer@, endian)
                    == Err::<FieldEntry, Error>(x),
            },
    {
        match field_def_num {
            0 => match decode_field(buffer, endian, FieldProfile { base: BaseType::Uint8z, profile_type: None, scale: None, offset: None, units: None }) {
                Ok(f) => Ok(Capabilities::Languages(f)),
                Err(x) => Err(x),
            },
            1 => match decode_field(buffer, endian, FieldProfile { base: BaseType::Uint8z, profile_type: Some(ProfileType::SportBits0), scale: None, offset: None, units: None }) {
                Ok(f) => Ok(Capabilities::Sports(f)),
                Err(x) => Err(x),
            },
            21 => match decode_field(buffer, endian, FieldProfile { base: BaseType::Uint32z, profile_type: Some(ProfileType::WorkoutCapabilities), scale: None, offset: None, units: None }) {
                Ok(f) => Ok(Capabilities::WorkoutsSupported(f)),
                Err(x) => Err(x),
            },
            23 => match decode_field(buffer, endian, FieldProfile { base: BaseType::Uint32z, profile_type: Some(ProfileType::ConnectivityCapabilities), scale: None, offset: None, units: None }) {
                Ok(f) => Ok(Capabilities::ConnectivitySupported(f)),
                Err(x) => Err(x),
            },
            _ => Ok(Capabilities::Unknown { data: slice_to_vec(buffer), field_def_num }),
        }
    }
}

#[derive(Debug, Clone)]
pub enum FileCapabilities {
    MessageIndex(Field),
    Type(Field),
    Flags(Field),
    Directory(Field),
    MaxCount(Field),
    MaxSize(Field),
    Unknown { data: Vec<u8>, field_def_num: u8 },
}

impl FileCapabilities {
    /// The profile entry of each field of this message.
    pub open spec fn profile(field_def_num: u8) -> Option<FieldProfile> {
        match field_def_num {
            254 => Some(FieldProfile { base: BaseType::Uint16, profile_type: Some(ProfileType::MessageIndex), scale: None, offset: None, units: None }),
            0 => Some(FieldProfile { base: BaseType::Enum, profile_type: Some(ProfileType::File), scale: None, offset: None, units: None }),
            1 => Some(FieldProfile { base: BaseType::Uint8z, profile_type: Some(ProfileType::FileFlags), scale: None, offset: None, units: None }),
            2 => Some(FieldProfile { base: BaseType::Utf8String, profile_type: None, scale: None, offset: None, units: None }),
            3 => Some(FieldProfile { base: BaseType::Uint16, profile_type: None, scale: None, offset: None, units: None }),
            4 => Some(FieldProfile { base: BaseType::Uint32, profile_type: None, scale: None, offset: None, units: Some("bytes") }),
            _ => None,
        }
    }

    /// The field this value holds.
    pub open spec fn entry(&self) -> FieldEntry {
        match self {
            FileCapabilities::MessageIndex(f) => FieldEntry::Known { num: 254, field: f@ },
            FileCapabilities::Type(f) => FieldEntry::Known { num: 0, field: f@ },
            FileCapabilities::Flags(f) => FieldEntry::Known { num: 1, field: f@ },
            FileCapabilities::Directory(f) => FieldEntry::Known { num: 2, field: f@ },
            FileCapabilities::MaxCount(f) => FieldEntry::Known { num: 3, field: f@ },
            FileCapabilities::MaxSize(f) => FieldEntry::Known { num: 4, field: f@ },
            FileCapabilities::Unknown { data, field_def_num } => FieldEntry::Unknown { num: *field_def_num, data: data@ },
        }
    }

    /// Decodes the byte run `buffer` of field `field_def_num` of this message.
    pub fn decode(buffer: &[u8], field_def_num: u8, endian: Endian) -> (r: Result<Self, Error>)
        ensures
            match r {
                Ok(m) => decode_entry(Self::profile(field_def_num), field_def_num, buffer@, endian)
                    == Ok::<FieldEntry, Error>(m.entry()),
                Err(x) => decode_entry(Self::profile(field_def_num), field_def_num, buffer@, endian)
                    == Err::<FieldEntry, Error>(x),
            },
    {
        match field_def_num {
            254 => match decode_field(buffer, endian, FieldProfile { base: BaseType::Uint16, profile_type: Some(ProfileType::MessageIndex), scale: None, offset: None, units: None }) {
                Ok(f) => Ok(FileCapabilities::MessageIndex(f)),
                Err(x) => Err(x),
            },
            0 => match decode_field(buffer, endian, FieldProfile { base: BaseType::Enum, profile_type: Some(ProfileType::File), scale: None, offset: None, units: None }) {
                Ok(f) => Ok(FileCapabilities::Type(f)),
                Err(x) => Err(x),
            },
            1 => match decode_field(buffer, endian, FieldProfile { base: BaseType::Uint8z, profile_type: Some(ProfileType::FileFlags), scale: None, offset: None, units: None }) {
                Ok(f) => Ok(FileCapabilities::Flags(f)),
                Err(x) => Err(x),
            },
            2 => match decode_field(buffer, endian, FieldProfile { base: BaseType::Utf8String, profile_type: None, scale: None, offset: None, units: None }) {
                Ok(f) => Ok(FileCapabilities::Directory(f)),
                Err(x) => Err(x),
            },
            3 => match decode_field(buffer, endian, FieldProfile { base: BaseType::Uint16, profile_type: None, scale: None, offset: None, units: None }) {
                Ok(f) => Ok(FileCapabilities::MaxCount(f)),
                Err(x) => Err(x),
            },
            4 => match decode_field(buffer, endian, FieldProfile { base: BaseType::Uint32, profile_type: None, scale: None, offset: None, units: Some("bytes") }) {
                Ok(f) => Ok(FileCapabilities::MaxSize(f)),
                Err(x) => Err(x),
            },
            _ => Ok(FileCapabilities::Unknown { data: slice_to_vec(buffer), field_def_num }),
        }
    }
}

#[derive(Debug, Clone)]
pub enum MesgCapabilities {
    MessageIndex(Field),
    File(Field),
    MesgNum(Field),
    CountType(Field),
    Count(Field),
    Unknown { data: Vec<u8>, field_def_num: u8 },
}

impl MesgCapabilities {
    /// The profile entry of each field of this message.
    pub open spec fn profile(field_def_num: u8) -> Option<FieldProfile> {
        match field_def_num {
            254 => Some(FieldProfile { base: BaseType::Uint16, profile_type: Some(ProfileType::MessageIndex), scale: None, offset: None, units: None }),
            0 => Some(FieldProfile { base: BaseType::Enum, profile_type: Some(ProfileType::File), scale: None, offset: None, units: None }),
            1 => Some(FieldProfile { base: BaseType::Uint16, profile_type: Some(ProfileType::MesgNum), scale: None, offset: None, units: None }),
            2 => Some(FieldProfile { base: BaseType::Enum, profile_type: Some(ProfileType::MesgCount), scale: None, offset: None, units: None }),
            3 => Some(FieldProfile { base: BaseType::Uint16, profile_type: None, scale: None, offset: None, units: None }),
            _ => None,
        }
    }

    /// The field this value holds.
    pub open spec fn entry(&self) -> FieldEntry {
        match self {
            MesgCapabilities::MessageIndex(f) => FieldEntry::Known { num: 254, field: f@ },
            MesgCapabilities::File(f) => FieldEntry::Known { num: 0, field: f@ },
            MesgCapabilities::MesgNum(f) => FieldEntry::Known { num: 1, field: f@ },
            MesgCapabilities::CountType(f) => FieldEntry::Known { num: 2, field: f@ },
            MesgCapabilities::Count(f) => FieldEntry::Known { num: 3, field: f@ },
            MesgCapabilities::Unknown { data, field_def_num } => FieldEntry::Unknown { num: *field_def_num, data: data@ },
        }
    }

    /// Decodes the byte run `buffer` of field `field_def_num` of this message.
    pub fn decode(buffer: &[u8], field_def_num: u8, endian: Endian) -> (r: Result<Self, Error>)
        ensures
            match r {
                Ok(m) => decode_entry(Self::profile(field_def_num), field_def_num, buffer@, endian)
                    == Ok::<FieldEntry, Error>(m.entry()),
                Err(x) => decode_entry(Self::profile(field_def_num), field_def_num, buffer@, endian)
                    == Err::<FieldEntry, Error>(x),
            },
    {
        match field_def_num {
            254 => match decode_field(buffer, endian, FieldProfile { base: BaseType::Uint16, profile_type: Some(ProfileType::MessageIndex), scale: None, offset: None, units: None }) {
                Ok(f) => Ok(MesgCapabilities::MessageIndex(f)),
                Err(x) => Err(x),
            },
            0 => match decode_field(buffer, endian, FieldProfile { base: BaseType::Enum, profile_type: Some(ProfileType::File), scale: None, offset: None, units: None }) {
                Ok(f) => Ok(MesgCapabilities::File(f)),
                Err(x) => Err(x),
            },
            1 => match decode_field(buffer, endian, FieldProfile { base: BaseType::Uint16, profile_type: Some(ProfileType::MesgNum), scale: None, offset: None, units: None }) {
                Ok(f) => Ok(MesgCapabilities::MesgNum(f)),
                Err(x) => Err(x),
            },
            2 => match decode_field(buffer, endian, FieldProfile { base: BaseType::Enum, profile_type: Some(ProfileType::MesgCount), scale: None, offset: None, units: None }) {
                Ok(f) => Ok(MesgCapabilities::CountType(f)),
                Err(x) => Err(x),
            },
            3 => match decode_field(buffer, endian, FieldProfile { base: BaseType::Uint16, profile_type: None, scale: None, offset: None, units: None }) {
                Ok(f) => Ok(MesgCapabilities::Count(f)),
                Err(x) => Err(x),
            },
            _ => Ok(MesgCapabilities::Unknown { data: slice_to_vec(buffer), field_def_num }),
        }
    }
}

#[derive(Debug, Clone)]
pub enum FieldCapabilities {
    MessageIndex(Field),
    File(Field),
    MesgNum(Field),
    FieldNum(Field),
    Count(Field),
    Unknown { data: Vec<u8>, field_def_num: u8 },
}

impl FieldCapabilities {
    /// The profile entry of each field of this message.
    pub open spec fn profile(field_def_num: u8) -> Option<FieldProfile> {
        match field_def_num {
            254 => Some(FieldProfile { base: BaseType::Uint16, profile_type: Some(ProfileType::MessageIndex), scale: None, offset: None, units: None }),
            0 => Some(FieldProfile { base: BaseType::Enum, profile_type: Some(ProfileType::File), scale: None, offset: None, units: None }),
            1 => Some(FieldProfile { base: BaseType::Uint16, profile_type: Some(ProfileType::MesgNum), scale: None, offset: None, units: None }),
            2 => Some(FieldProfile { base: BaseType::Uint8, profile_type: None, scale: None, offset: None, units: None }),
            3 => Some(FieldProfile { base: BaseType::Uint16, profile_type: None, scale: None, offset: None, units: None }),
            _ => None,
        }
    }

    /// The field this value holds.
    pub open spec fn entry(&self) -> FieldEntry {
        match self {
            FieldCapabilities::MessageIndex(f) => FieldEntry::Known { num: 254, field: f@ },
            FieldCapabilities::File(f) => FieldEntry::Known { num: 0, field: f@ },
            FieldCapabilities::MesgNum(f) => FieldEntry::Known { num: 1, field: f@ },
            FieldCapabilities::FieldNum(f) => FieldEntry::Known { num: 2, field: f@ },
            FieldCapabilities::Count(f) => FieldEntry::Known { num: 3, field: f@ },
            FieldCapabilities::Unknown { data, field_def_num } => FieldEntry::Unknown { num: *field_def_num, data: data@ },
        }
    }

    /// Decodes the byte run `buffer` of field `field_def_num` of this message.
    pub fn decode(buffer: &[u8], field_def_num: u8, endian: Endian) -> (r: Result<Self, Error>)
        ensures
            match r {
                Ok(m) => decode_entry(Self::profile(field_def_num), field_def_num, buffer@, endian)
                    == Ok::<FieldEntry, Error>(m.entry()),
                Err(x) => decode_entry(Self::profile(field_def_num), field_def_num, buffer@, endian)
                    == Err::<FieldEntry, Error>(x),
            },
    {
        match field_def_num {
            254 => match decode_field(buffer, endian, FieldProfile { base: BaseType::Uint16, profile_type: Some(ProfileType::MessageIndex), scale: None, offset: None, units: None }) {
                Ok(f) => Ok(FieldCapabilities::MessageIndex(f)),
                Err(x) => Err(x),
            },
            0 => match decode_field(buffer, endian, FieldProfile { base: BaseType::Enum, profile_type: Some(ProfileType::File), scale: None, offset: None, units: None }) {
                Ok(f) => Ok(FieldCapabilities::File(f)),
                Err(x) => Err(x),
            },
            1 => match decode_field(buffer, endian, FieldProfile { base: BaseType::Uint16, profile_type: Some(ProfileType::MesgNum), scale: None, offset: None, units: None }) {
                Ok(f) => Ok(FieldCapabilities::MesgNum(f)),
                Err(x) => Err(x),
            },
            2 => match decode_field(buffer, endian, FieldProfile { base: BaseType::Uint8, profile_type: None, scale: None, offset: None, units: None }) {
                Ok(f) => Ok(FieldCapabilities::FieldNum(f)),
                Err(x) => Err(x),
            },
            3 => match decode_field(buffer, endian, FieldProfile { base: BaseType::Uint16, profile_type: None, scale: None, offset: None, units: None }) {
                Ok(f) => Ok(FieldCapabilities::Count(f)),
                Err(x) => Err(x),
            },
            _ => Ok(FieldCapabilities::Unknown { data: slice_to_vec(buffer), field_def_num }),
        }
    }
}

#[derive(Debug, Clone)]
pub enum DeviceSettings {
    /// Index into time zone arrays.
    ActiveTimeZone(Field),
    /// Offset from system time. Required to convert timestamp from system time to UTC.
    UtcOffset(Field),
    /// Offset from system time.
    TimeOffset(Field),
    /// Display mode for the time
    TimeMode(Field),
    /// timezone offset in 1/4 hour increments
    TimeZoneOffset(Field),
    /// Mode for backlight
    BacklightMode(Field),
    /// Enabled state of the activity tracker functionality
    ActivityTrackerEnabled(Field),
    /// UTC timestamp used to set the devices clock and date
    ClockTime(Field),
    /// Bitfield  to configure enabled screens for each supported loop
    PagesEnabled(Field),
    /// Enabled state of the move alert
    MoveAlertEnabled(Field),
    /// Display mode for the date
    DateMode(Field),
    DisplayOrientation(Field),
    MountingSide(Field),
    /// Bitfield to indicate one page as default for each supported loop
    DefaultPage(Field),
    /// Minimum steps before an autosync can occur
    AutosyncMinSteps(Field),
    /// Minimum minutes before an autosync can occur
    AutosyncMinTime(Field),
    /// Enable auto-detect setting for the lactate threshold feature.
    LactateThresholdAutodetectEnabled(Field),
    /// Automatically upload using BLE
    BleAutoUploadEnabled(Field),
    /// Helps to conserve battery by changing modes
    AutoSyncFrequency(Field),
    /// Allows setting specific activities auto-activity detect enabled/disabled settings
    AutoActivityDetect(Field),
    /// Number of screens configured to display
    NumberOfScreens(Field),
    /// Smart Notification display orientation
    SmartNotificationDisplayOrientation(Field),
    TapInterface(Field),
    Unknown { data: Vec<u8>, field_def_num: u8 },
}

impl DeviceSettings {
    /// The profile entry of each field of this message.
    pub open spec fn profile(field_def_num: u8) -> Option<FieldProfile> {
        match field_def_num {
            0 => Some(FieldProfile { base: BaseType::Uint8, profile_type: None, scale: None, offset: None, units: None }),
            1 => Some(FieldProfile { base: BaseType::Uint32, profile_type: None, scale: None, offset: None, units: None }),
            2 => Some(FieldProfile { base: BaseType::Uint32, profile_type: None, scale: None, offset: None, units: Some("s") }),
            4 => Some(FieldProfile { base: BaseType::Enum, profile_type: Some(ProfileType::TimeMode), scale: None, offset: None, units: None }),
            5 => Some(FieldProfile { base: BaseType::Sint8, profile_type: None, scale: Some(Scale { num: 4, den: 1 }), offset: None, units: Some("hr") }),
            12 => Some(FieldProfile { base: BaseType::Enum, profile_type: Some(ProfileType::BacklightMode), scale: None, offset: None, units: None }),
            36 => Some(FieldProfile { base: BaseType::Bool, profile_type: None, scale: None, offset: None, units: None }),
            39 => Some(FieldProfile { base: BaseType::Uint32, profile_type: Some(ProfileType::DateTime), scale: None, offset: None, units: None }),
            40 => Some(FieldProfile { base: BaseType::Uint16, profile_type: None, scale: None, offset: None, units: None }),
            46 => Some(FieldProfile { base: BaseType::Bool, profile_type: None, scale: None, offset: None, units: None }),
            47 => Some(FieldProfile { base: BaseType::Enum, profile_type: Some(ProfileType::DateMode), scale: None, offset: None, units: None }),
            55 => Some(FieldProfile { base: BaseType::Enum, profile_type: Some(ProfileType::DisplayOrientation), scale: None, offset: None, units: None }),
            56 => Some(FieldProfile { base: BaseType::Enum, profile_type: Some(ProfileType::Side), scale: None, offset: None, units: None }),
            57 => Some(FieldProfile { base: BaseType::Uint16, profile_type: None, scale: None, offset: None, units: None }),
            58 => Some(FieldProfile { base: BaseType::Uint16, profile_type: None, scale: None, offset: None, units: Some("steps") }),
            59 => Some(FieldProfile { base: BaseType::Uint16, profile_type: None, scale: None, offset: None, units: Some("minutes") }),
            80 => Some(FieldProfile { base: BaseType::Bool, profile_type: None, scale: None, offset: None, units: None }),
            86 => Some(FieldProfile { base: BaseType::Bool, profile_type: None, scale: None, offset: None, units: None }),
            89 => Some(FieldProfile { base: BaseType::Enum, profile_type: Some(ProfileType::AutoSyncFrequency), scale: None, offset: None, units: None }),
            90 => Some(FieldProfile { base: BaseType::Uint32, profile_type: Some(ProfileType::AutoActivityDetect), scale: None, offset: None, units: None }),
            94 => Some(FieldProfile { base: BaseType::Uint8, profile_type: None, scale: None, offset: None, units: None }),
            95 => Some(FieldProfile { base: BaseType::Enum, profile_type: Some(ProfileType::DisplayOrientation), scale: None, offset: None, units: None }),
            134 => Some(FieldProfile { base: BaseType::Enum, profile_type: Some(ProfileType::Switch), scale: None, offset: None, units: None }),
            _ => None,
        }
    }

    /// The field this value holds.
    pub open spec fn entry(&self) -> FieldEntry {
        match self {
            DeviceSettings::ActiveTimeZone(f) => FieldEntry::Known { num: 0, field: f@ },
            DeviceSettings::UtcOffset(f) => FieldEntry::Known { num: 1, field: f@ },
            DeviceSettings::TimeOffset(f) => FieldEntry::Known { num: 2, field: f@ },
            DeviceSettings::TimeMode(f) => FieldEntry::Known { num: 4, field: f@ },
            DeviceSettings::TimeZoneOffset(f) => FieldEntry::Known { num: 5, field: f@ },
            DeviceSettings::BacklightMode(f) => FieldEntry::Known { num: 12, field: f@ },
            DeviceSettings::ActivityTrackerEnabled(f) => FieldEntry::Known { num: 36, field: f@ },
            DeviceSettings::ClockTime(f) => FieldEntry::Known { num: 39, field: f@ },
            DeviceSettings::PagesEnabled(f) => FieldEntry::Known { num: 40, field: f@ },
            DeviceSettings::MoveAlertEnabled(f) => FieldEntry::Known { num: 46, field: f@ },
            DeviceSettings::DateMode(f) => FieldEntry::Known { num: 47, field: f@ },
            DeviceSettings::DisplayOrientation(f) => FieldEntry::Known { num: 55, field: f@ },
            DeviceSettings::MountingSide(f) => FieldEntry::Known { num: 56, field: f@ },
            DeviceSettings::DefaultPage(f) => FieldEntry::Known { num: 57, field: f@ },
            DeviceSettings::AutosyncMinSteps(f) => FieldEntry::Known { num: 58, field: f@ },
            DeviceSettings::AutosyncMinTime(f) => FieldEntry::Known { num: 59, field: f@ },
            DeviceSettings::LactateThresholdAutodetectEnabled(f) => FieldEntry::Known { num: 80, field: f@ },
            DeviceSettings::BleAutoUploadEnabled(f) => FieldEntry::Known { num: 86, field: f@ },
            DeviceSettings::AutoSyncFrequency(f) => FieldEntry::Known { num: 89, field: f@ },
            DeviceSettings::AutoActivityDetect(f) => FieldEntry::Known { num: 90, field: f@ },
            DeviceSettings::NumberOfScreens(f) => FieldEntry::Known { num: 94, field: f@ },
            DeviceSettings::SmartNotificationDisplayOrientation(f) => FieldEntry::Known { num: 95, field: f@ },
            DeviceSettings::TapInterface(f) => FieldEntry::Known { num: 134, field: f@ },
            DeviceSettings::Unknown { data, field_def_num } => FieldEntry::Unknown { num: *field_def_num, data: data@ },
        }
    }

    /// Decodes the byte run `buffer` of field `field_def_num` of this message.
    pub fn decode(buffer: &[u8], field_def_num: u8, endian: Endian) -> (r: Result<Self, Error>)
        ensures
            match r {
                Ok(m) => decode_entry(Self::profile(field_def_num), field_def_num, buffer@, endian)
                    == Ok::<FieldEntry, Error>(m.entry()),
                Err(x) => decode_entry(Self::profile(field_def_num), field_def_num, buffer@, endian)
                    == Err::<FieldEntry, Error>(x),
            },
    {
        match field_def_num {
            0 => match decode_field(buffer, endian, FieldProfile { base: BaseType::Uint8, profile_type: None, scale: None, offset: None, units: None }) {
                Ok(f) => Ok(DeviceSettings::ActiveTimeZone(f)),
                Err(x) => Err(x),
            },
            1 => match decode_field(buffer, endian, FieldProfile { base: BaseType::Uint32, profile_type: None, scale: None, offset: None, units: None }) {
                Ok(f) => Ok(DeviceSettings::UtcOffset(f)),
                Err(x) => Err(x),
            },
            2 => match decode_field(buffer, endian, FieldProfile { base: BaseType::Uint32, profile_type: None, scale: None, offset: None, units: Some("s") }) {
                Ok(f) => Ok(DeviceSettings::TimeOffset(f)),
                Err(x) => Err(x),
            },
            4 => match decode_field(buffer, endian, FieldProfile { base: BaseType::Enum, profile_type: Some(ProfileType::TimeMode), scale: None, offset: None, units: None }) {
                Ok(f) => Ok(DeviceSettings::TimeMode(f)),
                Err(x) => Err(x),
            },
            5 => match decode_field(buffer, endian, FieldProfile { base: BaseType::Sint8, profile_type: None, scale: Some(Scale { num: 4, den: 1 }), offset: None, units: Some("hr") }) {
                Ok(f) => Ok(DeviceSettings::TimeZoneOffset(f)),
                Err(x) => Err(x),
            },
            12 => match decode_field(buffer, endian, FieldProfile { base: BaseType::Enum, profile_type: Some(ProfileType::BacklightMode), scale: None, offset: None, units: None }) {
                Ok(f) => Ok(DeviceSettings::BacklightMode(f)),
                Err(x) => Err(x),
            },
            36 => match decode_field(buffer, endian, FieldProfile { base: BaseType::Bool, profile_type: None, scale: None, offset: None, units: None }) {
                Ok(f) => Ok(DeviceSettings::ActivityTrackerEnabled(f)),
                Err(x) => Err(x),
            },
            39 => match decode_field(buffer, endian, FieldProfile { base: BaseType::Uint32, profile_type: Some(ProfileType::DateTime), scale: None, offset: None, units: None }) {
                Ok(f) => Ok(DeviceSettings::ClockTime(f)),
                Err(x) => Err(x),
            },
            40 => match decode_field(buffer, endian, FieldProfile { base: BaseType::Uint16, profile_type: None, scale: None, offset: None, units: None }) {
                Ok(f) => Ok(DeviceSettings::PagesEnabled(f)),
                Err(x) => Err(x),
            },
            46 => match decode_field(buffer, endian, FieldProfile { base: BaseType::Bool, profile_type: None, scale: None, offset: None, units: None }) {
                Ok(f) => Ok(DeviceSettings::MoveAlertEnabled(f)),
                Err(x) => Err(x),
            },
            47 => match decode_field(buffer, endian, FieldProfile { base: BaseType::Enum, profile_type: Some(ProfileType::DateMode), scale: None, offset: None, units: None }) {
                Ok(f) => Ok(DeviceSettings::DateMode(f)),
                Err(x) => Err(x),
            },
            55 => match decode_field(buffer, endian, FieldProfile { base: BaseType::Enum, profile_type: Some(ProfileType::DisplayOrientation), scale: None, offset: None, units: None }) {
                Ok(f) => Ok(DeviceSettings::DisplayOrientation(f)),
                Err(x) => Err(x),
            },
            56 => match decode_field(buffer, endian, FieldProfile { base: BaseType::Enum, profile_type: Some(ProfileType::Side), scale: None, offset: None, units: None }) {
                Ok(f) => Ok(DeviceSettings::MountingSide(f)),
                Err(x) => Err(x),
            },
            57 => match decode_field(buffer, endian, FieldProfile { base: BaseType::Uint16, profile_type: None, scale: None, offset: None, units: None }) {
                Ok(f) => Ok(DeviceSettings::DefaultPage(f)),
                Err(x) => Err(x),
            },
            58 => match decode_field(buffer, endian, FieldProfile { base: BaseType::Uint16, profile_type: None, scale: None, offset: None, units: Some("steps") }) {
                Ok(f) => Ok(DeviceSettings::AutosyncMinSteps(f)),
                Err(x) => Err(x),
            },
            59 => match decode_field(buffer, endian, FieldProfile { base: BaseType::Uint16, profile_type: None, scale: None, offset: None, units: Some("minutes") }) {
                Ok(f) => Ok(DeviceSettings::AutosyncMinTime(f)),
                Err(x) => Err(x),
            },
            80 => match decode_field(buffer, endian, FieldProfile { base: BaseType::Bool, profile_type: None, scale: None, offset: None, units: None }) {
                Ok(f) => Ok(DeviceSettings::LactateThresholdAutodetectEnabled(f)),
                Err(x) => Err(x),
            },
            86 => match decode_field(buffer, endian, FieldProfile { base: BaseType::Bool, profile_type: None, scale: None, offset: None, units: None }) {
                Ok(f) => Ok(DeviceSettings::BleAutoUploadEnabled(f)),
                Err(x) => Err(x),
            },
            89 => match decode_field(buffer, endian, FieldProfile { base: BaseType::Enum, profile_type: Some(ProfileType::AutoSyncFrequency), scale: None, offset: None, units: None }) {
                Ok(f) => Ok(DeviceSettings::AutoSyncFrequency(f)),
                Err(x) => Err(x),
            },
            90 => match decode_field(buffer, endian, FieldProfile { base: BaseType::Uint32, profile_type: Some(ProfileType::AutoActivityDetect), scale: None, offset: None, units: None }) {
                Ok(f) => Ok(DeviceSettings::AutoActivityDetect(f)),
                Err(x) => Err(x),
            },
            94 => match decode_field(buffer, endian, FieldProfile { base: BaseType::Uint8, profile_type: None, scale: None, offset: None, units: None }) {
                Ok(f) => Ok(DeviceSettings::NumberOfScreens(f)),
                Err(x) => Err(x),
            },
            95 => match decode_field(buffer, endian, FieldProfile { base: BaseType::Enum, profile_type: Some(ProfileType::DisplayOrientation), scale: None, offset: None, units: None }) {
                Ok(f) => Ok(DeviceSettings::SmartNotificationDisplayOrientation(f)),
                Err(x) => Err(x),
            },
            134 => match decode_field(buffer, endian, FieldProfile { base: BaseType::Enum, profile_type: Some(ProfileType::Switch), scale: None, offset: None, units: None }) {
                Ok(f) => Ok(DeviceSettings::TapInterface(f)),
                Err(x) => Err(x),
            },
            _ => Ok(DeviceSettings::Unknown { data: slice_to_vec(buffer), field_def_num }),
        }
    }
}

#[derive(Debug, Clone)]
pub enum UserProfile {
    MessageIndex(Field),
    FriendlyName(Field),
    Gender(Field),
    Age(Field),
    Height(Field),
    Weight(Field),
    Language(Field),
    ElevSetting(Field),
    WeightSetting(Field),
    RestingHeartRate(Field),
    DefaultMaxRunningHeartRate(Field),
    DefaultMaxBikingHeartRate(Field),
    DefaultMaxHeartRate(Field),
    HrSetting(Field),
    SpeedSetting(Field),
    DistSetting(Field),
    PowerSetting(Field),
    ActivityClass(Field),
    PositionSetting(Field),
    TemperatureSetting(Field),
    LocalId(Field),
    GlobalId(Field),
    /// Typical wake time
    WakeTime(Field),
    /// Typical bed time
    SleepTime(Field),
    HeightSetting(Field),
    /// User defined running step length set to 0 for auto length
    UserRunningStepLength(Field),
    /// User defined walking step length set to 0 for auto length
    UserWalkingStepLength(Field),
    DepthSetting(Field),
    DiveCount(Field),
    Unknown { data: Vec<u8>, field_def_num: u8 },
}

impl UserProfile {
    /// The profile entry of each field of this message.
    pub open spec fn profile(field_def_num: u8) -> Option<FieldProfile> {
        match field_def_num {
            254 => Some(FieldProfile { base: BaseType::Uint16, profile_type: Some(ProfileType::MessageIndex), scale: None, offset: None, units: None }),
            0 => Some(FieldProfile { base: BaseType::Utf8String, profile_type: None, scale: None, offset: None, units: None }),
            1 => Some(FieldProfile { base: BaseType::Enum, profile_type: Some(ProfileType::Gender), scale: None, offset: None, units: None }),
            2 => Some(FieldProfile { base: BaseType::Uint8, profile_type: None, scale: None, offset: None, units: Some("years") }),
            3 => Some(FieldProfile { base: BaseType::Uint8, profile_type: None, scale: Some(Scale { num: 100, den: 1 }), offset: None, units: Some("m") }),
            4 => Some(FieldProfile { base: BaseType::Uint16, profile_type: None, scale: Some(Scale { num: 10, den: 1 }), offset: None, units: Some("kg") }),
            5 => Some(FieldProfile { base: BaseType::Enum, profile_type: Some(ProfileType::Language), scale: None, offset: None, units: None }),
            6 => Some(FieldProfile { base: BaseType::Enum, profile_type: Some(ProfileType::DisplayMeasure), scale: None, offset: None, units: None }),
            7 => Some(FieldProfile { base: BaseType::Enum, profile_type: Some(ProfileType::DisplayMeasure), scale: None, offset: None, units: None }),
            8 => Some(FieldProfile { base: BaseType::Uint8, profile_type: None, scale: None, offset: None, units: Some("bpm") }),
            9 => Some(FieldProfile { base: BaseType::Uint8, profile_type: None, scale: None, offset: None, units: Some("bpm") }),
            10 => Some(FieldProfile { base: BaseType::Uint8, profile_type: None, scale: None, offset: None, units: Some("bpm") }),
            11 => Some(FieldProfile { base: BaseType::Uint8, profile_type: None, scale: None, offset: None, units: Some("bpm") }),
            12 => Some(FieldProfile { base: BaseType::Enum, profile_type: Some(ProfileType::DisplayHeart), scale: None, offset: None, units: None }),
            13 => Some(FieldProfile { base: BaseType::Enum, profile_type: Some(ProfileType::DisplayMeasure), scale: None, offset: None, units: None }),
            14 => Some(FieldProfile { base: BaseType::Enum, profile_type: Some(ProfileType::DisplayMeasure), scale: None, offset: None, units: None }),
            16 => Some(FieldProfile { base: BaseType::Enum, profile_type: Some(ProfileType::DisplayPower), scale: None, offset: None, units: None }),
            17 => Some(FieldProfile { base: BaseType::Enum, profile_type: Some(ProfileType::ActivityClass), scale: None, offset: None, units: None }),
            18 => Some(FieldProfile { base: BaseType::Enum, profile_type: Some(ProfileType::DisplayPosition), scale: None, offset: None, units: None }),
            21 => Some(FieldProfile { base: BaseType::Enum, profile_type: Some(ProfileType::DisplayMeasure), scale: None, offset: None, units: None }),
            22 => Some(FieldProfile { base: BaseType::Uint16, profile_type: Some(ProfileType::UserLocalId), scale: None, offset: None, units: None }),
            23 => Some(FieldProfile { base: BaseType::Bytes, profile_type: None, scale: None, offset: None, units: None }),
            28 => Some(FieldProfile { base: BaseType::Uint32, profile_type: Some(ProfileType::LocaltimeIntoDay), scale: None, offset: None, units: None }),
            29 => Some(FieldProfile { base: BaseType::Uint32, profile_type: Some(ProfileType::LocaltimeIntoDay), scale: None, offset: None, units: None }),
            30 => Some(FieldProfile { base: BaseType::Enum, profile_type: Some(ProfileType::DisplayMeasure), scale: None, offset: None, units: None }),
            31 => Some(FieldProfile { base: BaseType::Uint16, profile_type: None, scale: Some(Scale { num: 1000, den: 1 }), offset: None, units: Some("m") }),
            32 => Some(FieldProfile { base: BaseType::Uint16, profile_type: None, scale: Some(Scale { num: 1000, den: 1 }), offset: None, units: Some("m") }),
            47 => Some(FieldProfile { base: BaseType::Enum, profile_type: Some(ProfileType::DisplayMeasure), scale: None, offset: None, units: None }),
            49 => Some(FieldProfile { base: BaseType::Uint32, profile_type: None, scale: None, offset: None, units: None }),
            _ => None,
        }
    }

    /// The field this value holds.
    pub open spec fn entry(&self) -> FieldEntry {
        match self {
            UserProfile::MessageIndex(f) => FieldEntry::Known { num: 254, field: f@ },
            UserProfile::FriendlyName(f) => FieldEntry::Known { num: 0, field: f@ },
            UserProfile::Gender(f) => FieldEntry::Known { num: 1, field: f@ },
            UserProfile::Age(f) => FieldEntry::Known { num: 2, field: f@ },
            UserProfile::Height(f) => FieldEntry::Known { num: 3, field: f@ },
            UserProfile::Weight(f) => FieldEntry::Known { num: 4, field: f@ },
            UserProfile::Language(f) => FieldEntry::Known { num: 5, field: f@ },
            UserProfile::ElevSetting(f) => FieldEntry::Known { num: 6, field: f@ },
            UserProfile::WeightSetting(f) => FieldEntry::Known { num: 7, field: f@ },
            UserProfile::RestingHeartRate(f) => FieldEntry::Known { num: 8, field: f@ },
            UserProfile::DefaultMaxRunningHeartRate(f) => FieldEntry::Known { num: 9, field: f@ },
            UserProfile::DefaultMaxBikingHeartRate(f) => FieldEntry::Known { num: 10, field: f@ },
            UserProfile::DefaultMaxHeartRate(f) => FieldEntry::Known { num: 11, field: f@ },
            UserProfile::HrSetting(f) => FieldEntry::Known { num: 12, field: f@ },
            UserProfile::SpeedSetting(f) => FieldEntry::Known { num: 13, field: f@ },
            UserProfile::DistSetting(f) => FieldEntry::Known { num: 14, field: f@ },
            UserProfile::PowerSetting(f) => FieldEntry::Known { num: 16, field: f@ },
            UserProfile::ActivityClass(f) => FieldEntry::Known { num: 17, field: f@ },
            UserProfile::PositionSetting(f) => FieldEntry::Known { num: 18, field: f@ },
            UserProfile::TemperatureSetting(f) => FieldEntry::Known { num: 21, field: f@ },
            UserProfile::LocalId(f) => FieldEntry::Known { num: 22, field: f@ },
            UserProfile::GlobalId(f) => FieldEntry::Known { num: 23, field: f@ },
            UserProfile::WakeTime(f) => FieldEntry::Known { num: 28, field: f@ },
            UserProfile::SleepTime(f) => FieldEntry::Known { num: 29, field: f@ },
            UserProfile::HeightSetting(f) => FieldEntry::Known { num: 30, field: f@ },
            UserProfile::UserRunningStepLength(f) => FieldEntry::Known { num: 31, field: f@ },
            UserProfile::UserWalkingStepLength(f) => FieldEntry::Known { num: 32, field: f@ },
            UserProfile::DepthSetting(f) => FieldEntry::Known { num: 47, field: f@ },
            UserProfile::DiveCount(f) => FieldEntry::Known { num: 49, field: f@ },
            UserProfile::Unknown { data, field_def_num } => FieldEntry::Unknown { num: *field_def_num, data: data@ },
        }
    }

    /// Decodes the byte run `buffer` of field `field_def_num` of this message.
    pub fn decode(buffer: &[u8], field_def_num: u8, endian: Endian) -> (r: Result<Self, Error>)
        ensures
            match r {
                Ok(m) => decode_entry(Self::profile(field_def_num), field_def_num, buffer@, endian)
                    == Ok::<FieldEntry, Error>(m.entry()),
                Err(x) => decode_entry(Self::profile(field_def_num), field_def_num, buffer@, endian)
                    == Err::<FieldEntry, Error>(x),
            },
    {
        match field_def_num {
            254 => match decode_field(buffer, endian, FieldProfile { base: BaseType::Uint16, profile_type: Some(ProfileType::MessageIndex), scale: None, offset: None, units: None }) {
                Ok(f) => Ok(UserProfile::MessageIndex(f)),
                Err(x) => Err(x),
            },
            0 => match decode_field(buffer, endian, FieldProfile { base: BaseType::Utf8String, profile_type: None, scale: None, offset: None, units: None }) {
                Ok(f) => Ok(UserProfile::FriendlyName(f)),
                Err(x) => Err(x),
            },
            1 => match decode_field(buffer, endian, FieldProfile { base: BaseType::Enum, profile_type: Some(ProfileType::Gender), scale: None, offset: None, units: None }) {
                Ok(f) => Ok(UserProfile::Gender(f)),
                Err(x) => Err(x),
            },
            2 => match decode_field(buffer, endian, FieldProfile { base: BaseType::Uint8, profile_type: None, scale: None, offset: None, units: Some("years") }) {
                Ok(f) => Ok(UserProfile::Age(f)),
                Err(x) => Err(x),
            },
            3 => match decode_field(buffer, endian, FieldProfile { base: BaseType::Uint8, profile_type: None, scale: Some(Scale { num: 100, den: 1 }), offset: None, units: Some("m") }) {
                Ok(f) => Ok(UserProfile::Height(f)),
                Err(x) => Err(x),
            },
            4 => match decode_field(buffer, endian, FieldProfile { base: BaseType::Uint16, profile_type: None, scale: Some(Scale { num: 10, den: 1 }), offset: None, units: Some("kg") }) {
                Ok(f) => Ok(UserProfile::Weight(f)),
                Err(x) => Err(x),
            },
            5 => match decode_field(buffer, endian, FieldProfile { base: BaseType::Enum, profile_type: Some(ProfileType::Language), scale: None, offset: None, units: None }) {
                Ok(f) => Ok(UserProfile::Language(f)),
                Err(x) => Err(x),
            },
            6 => match decode_field(buffer, endian, FieldProfile { base: BaseType::Enum, profile_type: Some(ProfileType::DisplayMeasure), scale: None, offset: None, units: None }) {
                Ok(f) => Ok(UserProfile::ElevSetting(f)),
                Err(x) => Err(x),
            },
            7 => match decode_field(buffer, endian, FieldProfile { base: BaseType::Enum, profile_type: Some(ProfileType::DisplayMeasure), scale: None, offset: None, units: None }) {
                Ok(f) => Ok(UserProfile::WeightSetting(f)),
                Err(x) => Err(x),
            },
            8 => match decode_field(buffer, endian, FieldProfile { base: BaseType::Uint8, profile_type: None, scale: None, offset: None, units: Some("bpm") }) {
                Ok(f) => Ok(UserProfile::RestingHeartRate(f)),
                Err(x) => Err(x),
            },
            9 => match decode_field(buffer, endian, FieldProfile { base: BaseType::Uint8, profile_type: None, scale: None, offset: None, units: Some("bpm") }) {
                Ok(f) => Ok(UserProfile::DefaultMaxRunningHeartRate(f)),
                Err(x) => Err(x),
            },
            10 => match decode_field(buffer, endian, FieldProfile { base: BaseType::Uint8, profile_type: None, scale: None, offset: None, units: Some("bpm") }) {
                Ok(f) => Ok(UserProfile::DefaultMaxBikingHeartRate(f)),
                Err(x) => Err(x),
            },
            11 => match decode_field(buffer, endian, FieldProfile { base: BaseType::Uint8, profile_type: None, scale: None, offset: None, units: Some("bpm") }) {
                Ok(f) => Ok(UserProfile::DefaultMaxHeartRate(f)),
                Err(x) => Err(x),
            },
            12 => match decode_field(buffer, endian, FieldProfile { base: BaseType::Enum, profile_type: Some(ProfileType::DisplayHeart), scale: None, offset: None, units: None }) {
                Ok(f) => Ok(UserProfile::HrSetting(f)),
                Err(x) => Err(x),
            },
            13 => match decode_field(buffer, endian, FieldProfile { base: BaseType::Enum, profile_type: Some(ProfileType::DisplayMeasure), scale: None, offset: None, units: None }) {
                Ok(f) => Ok(UserProfile::SpeedSetting(f)),
                Err(x) => Err(x),
            },
            14 => match decode_field(buffer, endian, FieldProfile { base: BaseType::Enum, profile_type: Some(ProfileType::DisplayMeasure), scale: None, offset: None, units: None }) {
                Ok(f) => Ok(UserProfile::DistSetting(f)),
                Err(x) => Err(x),
            },
            16 => match decode_field(buffer, endian, FieldProfile { base: BaseType::Enum, profile_type: Some(ProfileType::DisplayPower), scale: None, offset: None, units: None }) {
                Ok(f) => Ok(UserProfile::PowerSetting(f)),
                Err(x) => Err(x),
            },
            17 => match decode_field(buffer, endian, FieldProfile { base: BaseType::Enum, profile_type: Some(ProfileType::ActivityClass), scale: None, offset: None, units: None }) {
                Ok(f) => Ok(UserProfile::ActivityClass(f)),
                Err(x) => Err(x),
            },
            18 => match decode_field(buffer, endian, FieldProfile { base: BaseType::Enum, profile_type: Some(ProfileType::DisplayPosition), scale: None, offset: None, units: None }) {
                Ok(f) => Ok(UserProfile::PositionSetting(f)),
                Err(x) => Err(x),
            },
            21 => match decode_field(buffer, endian, FieldProfile { base: BaseType::Enum, profile_type: Some(ProfileType::DisplayMeasure), scale: None, offset: None, units: None }) {
                Ok(f) => Ok(UserProfile::TemperatureSetting(f)),
                Err(x) => Err(x),
            },
            22 => match decode_field(buffer, endian, FieldProfile { base: BaseType::Uint16, profile_type: Some(ProfileType::UserLocalId), scale: None, offset: None, units: None }) {
                Ok(f) => Ok(UserProfile::LocalId(f)),
                Err(x) => Err(x),
            },
            23 => match decode_field(buffer, endian, FieldProfile { base: BaseType::Bytes, profile_type: None, scale: None, offset: None, units: None }) {
                Ok(f) => Ok(UserProfile::GlobalId(f)),
                Err(x) => Err(x),
            },
            28 => match decode_field(buffer, endian, FieldProfile { base: BaseType::Uint32, profile_type: Some(ProfileType::LocaltimeIntoDay), scale: None, offset: None, units: None }) {
                Ok(f) => Ok(UserProfile::WakeTime(f)),
                Err(x) => Err(x),
            },
            29 => match decode_field(buffer, endian, FieldProfile { base: BaseType::Uint32, profile_type: Some(ProfileType::LocaltimeIntoDay), scale: None, offset: None, units: None }) {
                Ok(f) => Ok(UserProfile::SleepTime(f)),
                Err(x) => Err(x),
            },
            30 => match decode_field(buffer, endian, FieldProfile { base: BaseType::Enum, profile_type: Some(ProfileType::DisplayMeasure), scale: None, offset: None, units: None }) {
                Ok(f) => Ok(UserProfile::HeightSetting(f)),
                Err(x) => Err(x),
            },
            31 => match decode_field(buffer, endian, FieldProfile { base: BaseType::Uint16, profile_type: None, scale: Some(Scale { num: 1000, den: 1 }), offset: None, units: Some("m") }) {
                Ok(f) => Ok(UserProfile::UserRunningStepLength(f)),
                Err(x) => Err(x),
            },
            32 => match decode_field(buffer, endian, FieldProfile { base: BaseType::Uint16, profile_type: None, scale: Some(Scale { num: 1000, den: 1 }), offset: None, units: Some("m") }) {
                Ok(f) => Ok(UserProfile::UserWalkingStepLength(f)),
                Err(x) => Err(x),
            },
            47 => match decode_field(buffer, endian, FieldProfile { base: BaseType::Enum, profile_type: Some(ProfileType::DisplayMeasure), scale: None, offset: None, units: None }) {
                Ok(f) => Ok(UserProfile::DepthSetting(f)),
                Err(x) => Err(x),
            },
            49 => match decode_field(buffer, endian, FieldProfile { base: BaseType::Uint32, profile_type: None, scale: None, offset: None, units: None }) {
                Ok(f) => Ok(UserProfile::DiveCount(f)),
                Err(x) => Err(x),
            },
            _ => Ok(UserProfile::Unknown { data: slice_to_vec(buffer), field_def_num }),
        }
    }
}

#[derive(Debug, Clone)]
pub enum HrmProfile {
    MessageIndex(Field),
    Enabled(Field),
    HrmAntId(Field),
    LogHrv(Field),
    HrmAntIdTransType(Field),
    Unknown { data: Vec<u8>, field_def_num: u8 },
}

impl HrmProfile {
    /// The profile entry of each field of this message.
    pub open spec fn profile(field_def_num: u8) -> Option<FieldProfile> {
        match field_def_num {
            254 => Some(FieldProfile { base: BaseType::Uint16, profile_type: Some(ProfileType::MessageIndex), scale: None, offset: None, units: None }),
            0 => Some(FieldProfile { base: BaseType::Bool, profile_type: None, scale: None, offset: None, units: None }),
            1 => Some(FieldProfile { base: BaseType::Uint16z, profile_type: None, scale: None, offset: None, units: None }),
            2 => Some(FieldProfile { base: BaseType::Bool, profile_type: None, scale: None, offset: None, units: None }),
            3 => Some(FieldProfile { base: BaseType::Uint8z, profile_type: None, scale: None, offset: None, units: None }),
            _ => None,
        }
    }

    /// The field this value holds.
    pub open spec fn entry(&self) -> FieldEntry {
        match self {
            HrmProfile::MessageIndex(f) => FieldEntry::Known { num: 254, field: f@ },
            HrmProfile::Enabled(f) => FieldEntry::Known { num: 0, field: f@ },
            HrmProfile::HrmAntId(f) => FieldEntry::Known { num: 1, field: f@ },
            HrmProfile::LogHrv(f) => FieldEntry::Known { num: 2, field: f@ },
            HrmProfile::HrmAntIdTransType(f) => FieldEntry::Known { num: 3, field: f@ },
            HrmProfile::Unknown { data, field_def_num } => FieldEntry::Unknown { num: *field_def_num, data: data@ },
        }
    }

    /// Decodes the byte run `buffer` of field `field_def_num` of this message.
    pub fn decode(buffer: &[u8], field_def_num: u8, endian: Endian) -> (r: Result<Self, Error>)
        ensures
            match r {
                Ok(m) => decode_entry(Self::profile(field_def_num), field_def_num, buffer@, endian)
                    == Ok::<FieldEntry, Error>(m.entry()),
                Err(x) => decode_entry(Self::profile(field_def_num), field_def_num, buffer@, endian)
                    == Err::<FieldEntry, Error>(x),
            },
    {
        match field_def_num {
            254 => match decode_field(buffer, endian, FieldProfile { base: BaseType::Uint16, profile_type: Some(ProfileType::MessageIndex), scale: None, offset: None, units: None }) {
                Ok(f) => Ok(HrmProfile::MessageIndex(f)),
                Err(x) => Err(x),
            },
            0 => match decode_field(buffer, endian, FieldProfile { base: BaseType::Bool, profile_type: None, scale: None, offset: None, units: None }) {
                Ok(f) => Ok(HrmProfile::Enabled(f)),
                Err(x) => Err(x),
            },
            1 => match decode_field(buffer, endian, FieldProfile { base: BaseType::Uint16z, profile_type: None, scale: None, offset: None, units: None }) {
                Ok(f) => Ok(HrmProfile::HrmAntId(f)),
                Err(x) => Err(x),
            },
            2 => match decode_field(buffer, endian, FieldProfile { base: BaseType::Bool, profile_type: None, scale: None, offset: None, units: None }) {
                Ok(f) => Ok(HrmProfile::LogHrv(f)),
                Err(x) => Err(x),
            },
            3 => match decode_field(buffer, endian, FieldProfile { base: BaseType::Uint8z, profile_type: None, scale: None, offset: None, units: None }) {
                Ok(f) => Ok(HrmProfile::HrmAntIdTransType(f)),
                Err(x) => Err(x),
            },
            _ => Ok(HrmProfile::Unknown { data: slice_to_vec(buffer), field_def_num }),
        }
    }
}

#[derive(Debug, Clone)]
pub enum SdmProfile {
    MessageIndex(Field),
    Enabled(Field),
    SdmAntId(Field),
    SdmCalFactor(Field),
    Odometer(Field),
    /// Use footpod for speed source instead of GPS
    SpeedSource(Field),
    SdmAntIdTransType(Field),
    /// Rollover counter that can be used to extend the odometer
    OdometerRollover(Field),
    Unknown { data: Vec<u8>, field_def_num: u8 },
}

impl SdmProfile {
    /// The profile entry of each field of this message.
    pub open spec fn profile(field_def_num: u8) -> Option<FieldProfile> {
        match field_def_num {
            254 => Some(FieldProfile { base: BaseType::Uint16, profile_type: Some(ProfileType::MessageIndex), scale: None, offset: None, units: None }),
            0 => Some(FieldProfile { base: BaseType::Bool, profile_type: None, scale: None, offset: None, units: None }),
            1 => Some(FieldProfile { base: BaseType::Uint16z, profile_type: None, scale: None, offset: None, units: None }),
            2 => Some(FieldProfile { base: BaseType::Uint16, profile_type: None, scale: Some(Scale { num: 10, den: 1 }), offset: None, units: Some("%") }),
            3 => Some(FieldProfile { base: BaseType::Uint32, profile_type: None, scale: Some(Scale { num: 100, den: 1 }), offset: None, units: Some("m") }),
            4 => Some(FieldProfile { base: BaseType::Bool, profile_type: None, scale: None, offset: None, units: None }),
            5 => Some(FieldProfile { base: BaseType::Uint8z, profile_type: None, scale: None, offset: None, units: None }),
            7 => Some(FieldProfile { base: BaseType::Uint8, profile_type: None, scale: None, offset: None, units: None }),
            _ => None,
        }
    }

    /// The field this value holds.
    pub open spec fn entry(&self) -> FieldEntry {
        match self {
            SdmProfile::MessageIndex(f) => FieldEntry::Known { num: 254, field: f@ },
            SdmProfile::Enabled(f) => FieldEntry::Known { num: 0, field: f@ },
            SdmProfile::SdmAntId(f) => FieldEntry::Known { num: 1, field: f@ },
            SdmProfile::SdmCalFactor(f) => FieldEntry::Known { num: 2, field: f@ },
            SdmProfile::Odometer(f) => FieldEntry::Known { num: 3, field: f@ },
            SdmProfile::SpeedSource(f) => FieldEntry::Known { num: 4, field: f@ },
            SdmProfile::SdmAntIdTransType(f) => FieldEntry::Known { num: 5, field: f@ },
            SdmProfile::OdometerRollover(f) => FieldEntry::Known { num: 7, field: f@ },
            SdmProfile::Unknown { data, field_def_num } => FieldEntry::Unknown { num: *field_def_num, data: data@ },
        }
    }

    /// Decodes the byte run `buffer` of field `field_def_num` of this message.
    pub fn decode(buffer: &[u8], field_def_num: u8, endian: Endian) -> (r: Result<Self, Error>)
        ensures
            match r {
                Ok(m) => decode_entry(Self::profile(field_def_num), field_def_num, buffer@, endian)
                    == Ok::<FieldEntry, Error>(m.entry()),
                Err(x) => decode_entry(Self::profile(field_def_num), field_def_num, buffer@, endian)
                    == Err::<FieldEntry, Error>(x),
            },
    {
        match field_def_num {
            254 => match decode_field(buffer, endian, FieldProfile { base: BaseType::Uint16, profile_type: Some(ProfileType::MessageIndex), scale: None, offset: None, units: None }) {
                Ok(f) => Ok(SdmProfile::MessageIndex(f)),
                Err(x) => Err(x),
            },
            0 => match decode_field(buffer, endian, FieldProfile { base: BaseType::Bool, profile_type: None, scale: None, offset: None, units: None }) {
                Ok(f) => Ok(SdmProfile::Enabled(f)),
                Err(x) => Err(x),
            },
            1 => match decode_field(buffer, endian, FieldProfile { base: BaseType::Uint16z, profile_type: None, scale: None, offset: None, units: None }) {
                Ok(f) => Ok(SdmProfile::SdmAntId(f)),
                Err(x) => Err(x),
            },
            2 => match decode_field(buffer, endian, FieldProfile { base: BaseType::Uint16, profile_type: None, scale: Some(Scale { num: 10, den: 1 }), offset: None, units: Some("%") }) {
                Ok(f) => Ok(SdmProfile::SdmCalFactor(f)),
                Err(x) => Err(x),
            },
            3 => match decode_field(buffer, endian, FieldProfile { base: BaseType::Uint32, profile_type: None, scale: Some(Scale { num: 100, den: 1 }), offset: None, units: Some("m") }) {
                Ok(f) => Ok(SdmProfile::Odometer(f)),
                Err(x) => Err(x),
            },
            4 => match decode_field(buffer, endian, FieldProfile { base: BaseType::Bool, profile_type: None, scale: None, offset: None, units: None }) {
                Ok(f) => Ok(SdmProfile::SpeedSource(f)),
                Err(x) => Err(x),
            },
            5 => match decode_field(buffer, endian, FieldProfile { base: BaseType::Uint8z, profile_type: None, scale: None, offset: None, units: None }) {
                Ok(f) => Ok(SdmProfile::SdmAntIdTransType(f)),
                Err(x) => Err(x),
            },
            7 => match decode_field(buffer, endian, FieldProfile { base: BaseType::Uint8, profile_type: None, scale: None, offset: None, units: None }) {
                Ok(f) => Ok(SdmProfile::OdometerRollover(f)),
                Err(x) => Err(x),
            },
            _ => Ok(SdmProfile::Unknown { data: slice_to_vec(buffer), field_def_num }),
        }
    }
}

#[derive(Debug, Clone)]
pub enum BikeProfile {
    MessageIndex(Field),
    Name(Field),
    Sport(Field),
    SubSport(Field),
    Odometer(Field),
    BikeSpdAntId(Field),
    BikeCadAntId(Field),
    BikeSpdcadAntId(Field),
    BikePowerAntId(Field),
    CustomWheelsize(Field),
    AutoWheelsize(Field),
    BikeWeight(Field),
    PowerCalFactor(Field),
    AutoWheelCal(Field),
    AutoPowerZero(Field),
    Id(Field),
    SpdEnabled(Field),
    CadEnabled(Field),
    SpdcadEnabled(Field),
    PowerEnabled(Field),
    CrankLength(Field),
    Enabled(Field),
    BikeSpdAntIdTransType(Field),
    BikeCadAntIdTransType(Field),
    BikeSpdcadAntIdTransType(Field),
    BikePowerAntIdTransType(Field),
    /// Rollover counter that can be used to extend the odometer
    OdometerRollover(Field),
    /// Number of front gears
    FrontGearNum(Field),
    /// Number of teeth on each gear 0 is innermost
    FrontGear(Field),
    /// Number of rear gears
    RearGearNum(Field),
    /// Number of teeth on each gear 0 is innermost
    RearGear(Field),
    ShimanoDi2Enabled(Field),
    Unknown { data: Vec<u8>, field_def_num: u8 },
}

impl BikeProfile {
    /// The profile entry of each field of this message.
    pub open spec fn profile(field_def_num: u8) -> Option<FieldProfile> {
        match field_def_num {
            254 => Some(FieldProfile { base: BaseType::Uint16, profile_type: Some(ProfileType::MessageIndex), scale: None, offset: None, units: None }),
            0 => Some(FieldProfile { base: BaseType::Utf8String, profile_type: None, scale: None, offset: None, units: None }),
            1 => Some(FieldProfile { base: BaseType::Enum, profile_type: Some(ProfileType::Sport), scale: None, offset: None, units: None }),
            2 => Some(FieldProfile { base: BaseType::Enum, profile_type: Some(ProfileType::SubSport), scale: None, offset: None, units: None }),
            3 => Some(FieldProfile { base: BaseType::Uint32, profile_type: None, scale: Some(Scale { num: 100, den: 1 }), offset: None, units: Some("m") }),
            4 => Some(FieldProfile { base: BaseType::Uint16z, profile_type: None, scale: None, offset: None, units: None }),
            5 => Some(FieldProfile { base: BaseType::Uint16z, profile_type: None, scale: None, offset: None, units: None }),
            6 => Some(FieldProfile { base: BaseType::Uint16z, profile_type: None, scale: None, offset: None, units: None }),
            7 => Some(FieldProfile { base: BaseType::Uint16z, profile_type: None, scale: None, offset: None, units: None }),
            8 => Some(FieldProfile { base: BaseType::Uint16, profile_type: None, scale: Some(Scale { num: 1000, den: 1 }), offset: None, units: Some("m") }),
            9 => Some(FieldProfile { base: BaseType::Uint16, profile_type: None, scale: Some(Scale { num: 1000, den: 1 }), offset: None, units: Some("m") }),
            10 => Some(FieldProfile { base: BaseType::Uint16, profile_type: None, scale: Some(Scale { num: 10, den: 1 }), offset: None, units: Some("kg") }),
            11 => Some(FieldProfile { base: BaseType::Uint16, profile_type: None, scale: Some(Scale { num: 10, den: 1 }), offset: None, units: Some("%") }),
            12 => Some(FieldProfile { base: BaseType::Bool, profile_type: None, scale: None, offset: None, units: None }),
            13 => Some(FieldProfile { base: BaseType::Bool, profile_type: None, scale: None, offset: None, units: None }),
            14 => Some(FieldProfile { base: BaseType::Uint8, profile_type: None, scale: None, offset: None, units: None }),
            15 => Some(FieldProfile { base: BaseType::Bool, profile_type: None, scale: None, offset: None, units: None }),
            16 => Some(FieldProfile { base: BaseType::Bool, profile_type: None, scale: None, offset: None, units: None }),
            17 => Some(FieldProfile { base: BaseType::Bool, profile_type: None, scale: None, offset: None, units: None }),
            18 => Some(FieldProfile { base: BaseType::Bool, profile_type: None, scale: None, offset: None, units: None }),
            19 => Some(FieldProfile { base: BaseType::Uint8, profile_type: None, scale: Some(Scale { num: 2, den: 1 }), offset: None, units: Some("mm") }),
            20 => Some(FieldProfile { base: BaseType::Bool, profile_type: None, scale: None, offset: None, units: None }),
            21 => Some(FieldProfile { base: BaseType::Uint8z, profile_type: None, scale: None, offset: None, units: None }),
            22 => Some(FieldProfile { base: BaseType::Uint8z, profile_type: None, scale: None, offset: None, units: None }),
            23 => Some(FieldProfile { base: BaseType::Uint8z, profile_type: None, scale: None, offset: None, units: None }),
            24 => Some(FieldProfile { base: BaseType::Uint8z, profile_type: None, scale: None, offset: None, units: None }),
            37 => Some(FieldProfile { base: BaseType::Uint8, profile_type: None, scale: None, offset: None, units: None }),
            38 => Some(FieldProfile { base: BaseType::Uint8z, profile_type: None, scale: None, offset: None, units: None }),
            39 => Some(FieldProfile { base: BaseType::Uint8z, profile_type: None, scale: None, offset: None, units: None }),
            40 => Some(FieldProfile { base: BaseType::Uint8z, profile_type: None, scale: None, offset: None, units: None }),
            41 => Some(FieldProfile { base: BaseType::Uint8z, profile_type: None, scale: None, offset: None, units: None }),
            44 => Some(FieldProfile { base: BaseType::Bool, profile_type: None, scale: None, offset: None, units: None }),
            _ => None,
        }
    }

    /// The field this value holds.
    pub open spec fn entry(&self) -> FieldEntry {
        match self {
            BikeProfile::MessageIndex(f) => FieldEntry::Known { num: 254, field: f@ },
            BikeProfile::Name(f) => FieldEntry::Known { num: 0, field: f@ },
            BikeProfile::Sport(f) => FieldEntry::Known { num: 1, field: f@ },
            BikeProfile::SubSport(f) => FieldEntry::Known { num: 2, field: f@ },
            BikeProfile::Odometer(f) => FieldEntry::Known { num: 3, field: f@ },
            BikeProfile::BikeSpdAntId(f) => FieldEntry::Known { num: 4, field: f@ },
            BikeProfile::BikeCadAntId(f) => FieldEntry::Known { num: 5, field: f@ },
            BikeProfile::BikeSpdcadAntId(f) => FieldEntry::Known { num: 6, field: f@ },
            BikeProfile::BikePowerAntId(f) => FieldEntry::Known { num: 7, field: f@ },
            BikeProfile::CustomWheelsize(f) => FieldEntry::Known { num: 8, field: f@ },
            BikeProfile::AutoWheelsize(f) => FieldEntry::Known { num: 9, field: f@ },
            BikeProfile::BikeWeight(f) => FieldEntry::Known { num: 10, field: f@ },
            BikeProfile::PowerCalFactor(f) => FieldEntry::Known { num: 11, field: f@ },
            BikeProfile::AutoWheelCal(f) => FieldEntry::Known { num: 12, field: f@ },
            BikeProfile::AutoPowerZero(f) => FieldEntry::Known { num: 13, field: f@ },
            BikeProfile::Id(f) => FieldEntry::Known { num: 14, field: f@ },
            BikeProfile::SpdEnabled(f) => FieldEntry::Known { num: 15, field: f@ },
            BikeProfile::CadEnabled(f) => FieldEntry::Known { num: 16, field: f@ },
            BikeProfile::SpdcadEnabled(f) => FieldEntry::Known { num: 17, field: f@ },
            BikeProfile::PowerEnabled(f) => FieldEntry::Known { num: 18, field: f@ },
            BikeProfile::CrankLength(f) => FieldEntry::Known { num: 19, field: f@ },
            BikeProfile::Enabled(f) => FieldEntry::Known { num: 20, field: f@ },
            BikeProfile::BikeSpdAntIdTransType(f) => FieldEntry::Known { num: 21, field: f@ },
            BikeProfile::BikeCadAntIdTransType(f) => FieldEntry::Known { num: 22, field: f@ },
            BikeProfile::BikeSpdcadAntIdTransType(f) => FieldEntry::Known { num: 23, field: f@ },
            BikeProfile::BikePowerAntIdTransType(f) => FieldEntry::Known { num: 24, field: f@ },
            BikeProfile::OdometerRollover(f) => FieldEntry::Known { num: 37, field: f@ },
            BikeProfile::FrontGearNum(f) => FieldEntry::Known { num: 38, field: f@ },
            BikeProfile::FrontGear(f) => FieldEntry::Known { num: 39, field: f@ },
            BikeProfile::RearGearNum(f) => FieldEntry::Known { num: 40, field: f@ },
            BikeProfile::RearGear(f) => FieldEntry::Known { num: 41, field: f@ },
            BikeProfile::ShimanoDi2Enabled(f) => FieldEntry::Known { num: 44, field: f@ },
            BikeProfile::Unknown { data, field_def_num } => FieldEntry::Unknown { num: *field_def_num, data: data@ },
        }
    }

    /// Decodes the byte run `buffer` of field `field_def_num` of this message.
    pub fn decode(buffer: &[u8], field_def_num: u8, endian: Endian) -> (r: Result<Self, Error>)
        ensures
            match r {
                Ok(m) => decode_entry(Self::profile(field_def_num), field_def_num, buffer@, endian)
                    == Ok::<FieldEntry, Error>(m.entry()),
                Err(x) => decode_entry(Self::profile(field_def_num), field_def_num, buffer@, endian)
                    == Err::<FieldEntry, Error>(x),
            },
    {
        match field_def_num {
            254 => match decode_field(buffer, endian, FieldProfile { base: BaseType::Uint16, profile_type: Some(ProfileType::MessageIndex), scale: None, offset: None, units: None }) {
                Ok(f) => Ok(BikeProfile::MessageIndex(f)),
                Err(x) => Err(x),
            },
            0 => match decode_field(buffer, endian, FieldProfile { base: BaseType::Utf8String, profile_type: None, scale: None, offset: None, units: None }) {
                Ok(f) => Ok(BikeProfile::Name(f)),
                Err(x) => Err(x),
            },
            1 => match decode_field(buffer, endian, FieldProfile { base: BaseType::Enum, profile_type: Some(ProfileType::Sport), scale: None, offset: None, units: None }) {
                Ok(f) => Ok(BikeProfile::Sport(f)),
                Err(x) => Err(x),
            },
            2 => match decode_field(buffer, endian, FieldProfile { base: BaseType::Enum, profile_type: Some(ProfileType::SubSport), scale: None, offset: None, units: None }) {
                Ok(f) => Ok(BikeProfile::SubSport(f)),
                Err(x) => Err(x),
            },
            3 => match decode_field(buffer, endian, FieldProfile { base: BaseType::Uint32, profile_type: None, scale: Some(Scale { num: 100, den: 1 }), offset: None, units: Some("m") }) {
                Ok(f) => Ok(BikeProfile::Odometer(f)),
                Err(x) => Err(x),
            },
            4 => match decode_field(buffer, endian, FieldProfile { base: BaseType::Uint16z, profile_type: None, scale: None, offset: None, units: None }) {
                Ok(f) => Ok(BikeProfile::BikeSpdAntId(f)),
                Err(x) => Err(x),
            },
            5 => match decode_field(buffer, endian, FieldProfile { base: BaseType::Uint16z, profile_type: None, scale: None, offset: None, units: None }) {
                Ok(f) => Ok(BikeProfile::BikeCadAntId(f)),
                Err(x) => Err(x),
            },
            6 => match decode_field(buffer, endian, FieldProfile { base: BaseType::Uint16z, profile_type: None, scale: None, offset: None, units: None }) {
                Ok(f) => Ok(BikeProfile::BikeSpdcadAntId(f)),
                Err(x) => Err(x),
            },
            7 => match decode_field(buffer, endian, FieldProfile { base: BaseType::Uint16z, profile_type: None, scale: None, offset: None, units: None }) {
                Ok(f) => Ok(BikeProfile::BikePowerAntId(f)),
                Err(x) => Err(x),
            },
            8 => match decode_field(buffer, endian, FieldProfile { base: BaseType::Uint16, profile_type: None, scale: Some(Scale { num: 1000, den: 1 }), offset: None, units: Some("m") }) {
                Ok(f) => Ok(BikeProfile::CustomWheelsize(f)),
                Err(x) => Err(x),
            },
            9 => match decode_field(buffer, endian, FieldProfile { base: BaseType::Uint16, profile_type: None, scale: Some(Scale { num: 1000, den: 1 }), offset: None, units: Some("m") }) {
                Ok(f) => Ok(BikeProfile::AutoWheelsize(f)),
                Err(x) => Err(x),
            },
            10 => match decode_field(buffer, endian, FieldProfile { base: BaseType::Uint16, profile_type: None, scale: Some(Scale { num: 10, den: 1 }), offset: None, units: Some("kg") }) {
                Ok(f) => Ok(BikeProfile::BikeWeight(f)),
                Err(x) => Err(x),
            },
            11 => match decode_field(buffer, endian, FieldProfile { base: BaseType::Uint16, profile_type: None, scale: Some(Scale { num: 10, den: 1 }), offset: None, units: Some("%") }) {
                Ok(f) => Ok(BikeProfile::PowerCalFactor(f)),
                Err(x) => Err(x),
            },
            12 => match decode_field(buffer, endian, FieldProfile { base: BaseType::Bool, profile_type: None, scale: None, offset: None, units: None }) {
                Ok(f) => Ok(BikeProfile::AutoWheelCal(f)),
                Err(x) => Err(x),
            },
            13 => match decode_field(buffer, endian, FieldProfile { base: BaseType::Bool, profile_type: None, scale: None, offset: None, units: None }) {
                Ok(f) => Ok(BikeProfile::AutoPowerZero(f)),
                Err(x) => Err(x),
            },
            14 => match decode_field(buffer, endian, FieldProfile { base: BaseType::Uint8, profile_type: None, scale: None, offset: None, units: None }) {
                Ok(f) => Ok(BikeProfile::Id(f)),
                Err(x) => Err(x),
            },
            15 => match decode_field(buffer, endian, FieldProfile { base: BaseType::Bool, profile_type: None, scale: None, offset: None, units: None }) {
                Ok(f) => Ok(BikeProfile::SpdEnabled(f)),
                Err(x) => Err(x),
            },
            16 => match decode_field(buffer, endian, FieldProfile { base: BaseType::Bool, profile_type: None, scale: None, offset: None, units: None }) {
                Ok(f) => Ok(BikeProfile::CadEnabled(f)),
                Err(x) => Err(x),
            },
            17 => match decode_field(buffer, endian, FieldProfile { base: BaseType::Bool, profile_type: None, scale: None, offset: None, units: None }) {
                Ok(f) => Ok(BikeProfile::SpdcadEnabled(f)),
                Err(x) => Err(x),
            },
            18 => match decode_field(buffer, endian, FieldProfile { base: BaseType::Bool, profile_type: None, scale: None, offset: None, units: None }) {
                Ok(f) => Ok(BikeProfile::PowerEnabled(f)),
                Err(x) => Err(x),
            },
            19 => match decode_field(buffer, endian, FieldProfile { base: BaseType::Uint8, profile_type: None, scale: Some(Scale { num: 2, den: 1 }), offset: None, units: Some("mm") }) {
                Ok(f) => Ok(BikeProfile::CrankLength(f)),
                Err(x) => Err(x),
            },
            20 => match decode_field(buffer, endian, FieldProfile { base: BaseType::Bool, profile_type: None, scale: None, offset: None, units: None }) {
                Ok(f) => Ok(BikeProfile::Enabled(f)),
                Err(x) => Err(x),
            },
            21 => match decode_field(buffer, endian, FieldProfile { base: BaseType::Uint8z, profile_type: None, scale: None, offset: None, units: None }) {
                Ok(f) => Ok(BikeProfile::BikeSpdAntIdTransType(f)),
                Err(x) => Err(x),
            },
            22 => match decode_field(buffer, endian, FieldProfile { base: BaseType::Uint8z, profile_type: None, scale: None, offset: None, units: None }) {
                Ok(f) => Ok(BikeProfile::BikeCadAntIdTransType(f)),
                Err(x) => Err(x),
            },
            23 => match decode_field(buffer, endian, FieldProfile { base: BaseType::Uint8z, profile_type: None, scale: None, offset: None, units: None }) {
                Ok(f) => Ok(BikeProfile::BikeSpdcadAntIdTransType(f)),
                Err(x) => Err(x),
            },
            24 => match decode_field(buffer, endian, FieldProfile { base: BaseType::Uint8z, profile_type: None, scale: None, offset: None, units: None }) {
                Ok(f) => Ok(BikeProfile::BikePowerAntIdTransType(f)),
                Err(x) => Err(x),
            },
            37 => match decode_field(buffer, endian, FieldProfile { base: BaseType::Uint8, profile_type: None, scale: None, offset: None, units: None }) {
                Ok(f) => Ok(BikeProfile::OdometerRollover(f)),
                Err(x) => Err(x),
            },
            38 => match decode_field(buffer, endian, FieldProfile { base: BaseType::Uint8z, profile_type: None, scale: None, offset: None, units: None }) {
                Ok(f) => Ok(BikeProfile::FrontGearNum(f)),
                Err(x) => Err(x),
            },
            39 => match decode_field(buffer, endian, FieldProfile { base: BaseType::Uint8z, profile_type: None, scale: None, offset: None, units: None }) {
                Ok(f) => Ok(BikeProfile::FrontGear(f)),
                Err(x) => Err(x),
            },
            40 => match decode_field(buffer, endian, FieldProfile { base: BaseType::Uint8z, profile_type: None, scale: None, offset: None, units: None }) {
                Ok(f) => Ok(BikeProfile::RearGearNum(f)),
                Err(x) => Err(x),
            },
            41 => match decode_field(buffer, endian, FieldProfile { base: BaseType::Uint8z, profile_type: None, scale: None, offset: None, units: None }) {
                Ok(f) => Ok(BikeProfile::RearGear(f)),
                Err(x) => Err(x),
            },
            44 => match decode_field(buffer, endian, FieldProfile { base: BaseType::Bool, profile_type: None, scale: None, offset: None, units: None }) {
                Ok(f) => Ok(BikeProfile::ShimanoDi2Enabled(f)),
                Err(x) => Err(x),
            },
            _ => Ok(BikeProfile::Unknown { data: slice_to_vec(buffer), field_def_num }),
        }
    }
}

#[derive(Debug, Clone)]
pub enum Connectivity {
    /// Use Bluetooth for connectivity features
    BluetoothEnabled(Field),
    /// Use Bluetooth Low Energy for connectivity features
    BluetoothLeEnabled(Field),
    /// Use ANT for connectivity features
    AntEnabled(Field),
    Name(Field),
    LiveTrackingEnabled(Field),
    WeatherConditionsEnabled(Field),
    WeatherAlertsEnabled(Field),
    AutoActivityUploadEnabled(Field),
    CourseDownloadEnabled(Field),
    WorkoutDownloadEnabled(Field),
    GpsEphemerisDownloadEnabled(Field),
    IncidentDetectionEnabled(Field),
    GrouptrackEnabled(Field),
    Unknown { data: Vec<u8>, field_def_num: u8 },
}

impl Connectivity {
    /// The profile entry of each field of this message.
    pub open spec fn profile(field_def_num: u8) -> Option<FieldProfile> {
        match field_def_num {
            0 => Some(FieldProfile { base: BaseType::Bool, profile_type: None, scale: None, offset: None, units: None }),
            1 => Some(FieldProfile { base: BaseType::Bool, profile_type: None, scale: None, offset: None, units: None }),
            2 => Some(FieldProfile { base: BaseType::Bool, profile_type: None, scale: None, offset: None, units: None }),
            3 => Some(FieldProfile { base: BaseType::Utf8String, profile_type: None, scale: None, offset: None, units: None }),
            4 => Some(FieldProfile { base: BaseType::Bool, profile_type: None, scale: None, offset: None, units: None }),
            5 => Some(FieldProfile { base: BaseType::Bool, profile_type: None, scale: None, offset: None, units: None }),
            6 => Some(FieldProfile { base: BaseType::Bool, profile_type: None, scale: None, offset: None, units: None }),
            7 => Some(FieldProfile { base: BaseType::Bool, profile_type: None, scale: None, offset: None, units: None }),
            8 => Some(FieldProfile { base: BaseType::Bool, profile_type: None, scale: None, offset: None, units: None }),
            9 => Some(FieldProfile { base: BaseType::Bool, profile_type: None, scale: None, offset: None, units: None }),
            10 => Some(FieldProfile { base: BaseType::Bool, profile_type: None, scale: None, offset: None, units: None }),
            11 => Some(FieldProfile { base: BaseType::Bool, profile_type: None, scale: None, offset: None, units: None }),
            12 => Some(FieldProfile { base: BaseType::Bool, profile_type: None, scale: None, offset: None, units: None }),
            _ => None,
        }
    }

    /// The field this value holds.
    pub open spec fn entry(&self) -> FieldEntry {
        match self {
            Connectivity::BluetoothEnabled(f) => FieldEntry::Known { num: 0, field: f@ },
            Connectivity::BluetoothLeEnabled(f) => FieldEntry::Known { num: 1, field: f@ },
            Connectivity::AntEnabled(f) => FieldEntry::Known { num: 2, field: f@ },
            Connectivity::Name(f) => FieldEntry::Known { num: 3, field: f@ },
            Connectivity::LiveTrackingEnabled(f) => FieldEntry::Known { num: 4, field: f@ },
            Connectivity::WeatherConditionsEnabled(f) => FieldEntry::Known { num: 5, field: f@ },
            Connectivity::WeatherAlertsEnabled(f) => FieldEntry::Known { num: 6, field: f@ },
            Connectivity::AutoActivityUploadEnabled(f) => FieldEntry::Known { num: 7, field: f@ },
            Connectivity::CourseDownloadEnabled(f) => FieldEntry::Known { num: 8, field: f@ },
            Connectivity::WorkoutDownloadEnabled(f) => FieldEntry::Known { num: 9, field: f@ },
            Connectivity::GpsEphemerisDownloadEnabled(f) => FieldEntry::Known { num: 10, field: f@ },
            Connectivity::IncidentDetectionEnabled(f) => FieldEntry::Known { num: 11, field: f@ },
            Connectivity::GrouptrackEnabled(f) => FieldEntry::Known { num: 12, field: f@ },
            Connectivity::Unknown { data, field_def_num } => FieldEntry::Unknown { num: *field_def_num, data: data@ },
        }
    }

    /// Decodes the byte run `buffer` of field `field_def_num` of this message.
    pub fn decode(buffer: &[u8], field_def_num: u8, endian: Endian) -> (r: Result<Self, Error>)
        ensures
            match r {
                Ok(m) => decode_entry(Self::profile(field_def_num), field_def_num, buffer@, endian)
                    == Ok::<FieldEntry, Error>(m.entry()),
                Err(x) => decode_entry(Self::profile(field_def_num), field_def_num, buffer@, endian)
                    == Err::<FieldEntry, Error>(x),
            },
    {
        match field_def_num {
            0 => match decode_field(buffer, endian, FieldProfile { base: BaseType::Bool, profile_type: None, scale: None, offset: None, units: None }) {
                Ok(f) => Ok(Connectivity::BluetoothEnabled(f)),
                Err(x) => Err(x),
            },
            1 => match decode_field(buffer, endian, FieldProfile { base: BaseType::Bool, profile_type: None, scale: None, offset: None, units: None }) {
                Ok(f) => Ok(Connectivity::BluetoothLeEnabled(f)),
                Err(x) => Err(x),
            },
            2 => match decode_field(buffer, endian, FieldProfile { base: BaseType::Bool, profile_type: None, scale: None, offset: None, units: None }) {
                Ok(f) => Ok(Connectivity::AntEnabled(f)),
                Err(x) => Err(x),
            },
            3 => match decode_field(buffer, endian, FieldProfile { base: BaseType::Utf8String, profile_type: None, scale: None, offset: None, units: None }) {
                Ok(f) => Ok(Connectivity::Name(f)),
                Err(x) => Err(x),
            },
            4 => match decode_field(buffer, endian, FieldProfile { base: BaseType::Bool, profile_type: None, scale: None, offset: None, units: None }) {
                Ok(f) => Ok(Connectivity::LiveTrackingEnabled(f)),
                Err(x) => Err(x),
            },
            5 => match decode_field(buffer, endian, FieldProfile { base: BaseType::Bool, profile_type: None, scale: None, offset: None, units: None }) {
                Ok(f) => Ok(Connectivity::WeatherConditionsEnabled(f)),
                Err(x) => Err(x),
            },
            6 => match decode_field(buffer, endian, FieldProfile { base: BaseType::Bool, profile_type: None, scale: None, offset: None, units: None }) {
                Ok(f) => Ok(Connectivity::WeatherAlertsEnabled(f)),
                Err(x) => Err(x),
            },
            7 => match decode_field(buffer, endian, FieldProfile { base: BaseType::Bool, profile_type: None, scale: None, offset: None, units: None }) {
                Ok(f) => Ok(Connectivity::AutoActivityUploadEnabled(f)),
                Err(x) => Err(x),
            },
            8 => match decode_field(buffer, endian, FieldProfile { base: BaseType::Bool, profile_type: None, scale: None, offset: None, units: None }) {
                Ok(f) => Ok(Connectivity::CourseDownloadEnabled(f)),
                Err(x) => Err(x),
            },
            9 => match decode_field(buffer, endian, FieldProfile { base: BaseType::Bool, profile_type: None, scale: None, offset: None, units: None }) {
                Ok(f) => Ok(Connectivity::WorkoutDownloadEnabled(f)),
                Err(x) => Err(x),
            },
            10 => match decode_field(buffer, endian, FieldProfile { base: BaseType::Bool, profile_type: None, scale: None, offset: None, units: None }) {
                Ok(f) => Ok(Connectivity::GpsEphemerisDownloadEnabled(f)),
                Err(x) => Err(x),
            },
            11 => match decode_field(buffer, endian, FieldProfile { base: BaseType::Bool, profile_type: None, scale: None, offset: None, units: None }) {
                Ok(f) => Ok(Connectivity::IncidentDetectionEnabled(f)),
                Err(x) => Err(x),
            },
            12 => match decode_field(buffer, endian, FieldProfile { base: BaseType::Bool, profile_type: None, scale: None, offset: None, units: None }) {
                Ok(f) => Ok(Connectivity::GrouptrackEnabled(f)),
                Err(x) => Err(x),
            },
            _ => Ok(Connectivity::Unknown { data: slice_to_vec(buffer), field_def_num }),
        }
    }
}

#[derive(Debug, Clone)]
pub enum WatchfaceSettings {
    MessageIndex(Field),
    Mode(Field),
    Layout(Field),
    Unknown { data: Vec<u8>, field_def_num: u8 },
}

impl WatchfaceSettings {
    /// The profile entry of each field of this message.
    pub open spec fn profile(field_def_num: u8) -> Option<FieldProfile> {
        match field_def_num {
            254 => Some(FieldProfile { base: BaseType::Uint16, profile_type: Some(ProfileType::MessageIndex), scale: None, offset: None, units: None }),
            0 => Some(FieldProfile { base: BaseType::Enum, profile_type: Some(ProfileType::WatchfaceMode), scale: None, offset: None, units: None }),
            1 => Some(FieldProfile { base: BaseType::Bytes, profile_type: None, scale: None, offset: None, units: None }),
            _ => None,
        }
    }

    /// The field this value holds.
    pub open spec fn entry(&self) -> FieldEntry {
        match self {
            WatchfaceSettings::MessageIndex(f) => FieldEntry::Known { num: 254, field: f@ },
            WatchfaceSettings::Mode(f) => FieldEntry::Known { num: 0, field: f@ },
            WatchfaceSettings::Layout(f) => FieldEntry::Known { num: 1, field: f@ },
            WatchfaceSettings::Unknown { data, field_def_num } => FieldEntry::Unknown { num: *field_def_num, data: data@ },
        }
    }

    /// Decodes the byte run `buffer` of field `field_def_num` of this message.
    pub fn decode(buffer: &[u8], field_def_num: u8, endian: Endian) -> (r: Result<Self, Error>)
        ensures
            match r {
                Ok(m) => decode_entry(Self::profile(field_def_num), field_def_num, buffer@, endian)
                    == Ok::<FieldEntry, Error>(m.entry()),
                Err(x) => decode_entry(Self::profile(field_def_num), field_def_num, buffer@, endian)
                    == Err::<FieldEntry, Error>(x),
            },
    {
        match field_def_num {
            254 => match decode_field(buffer, endian, FieldProfile { base: BaseType::Uint16, profile_type: Some(ProfileType::MessageIndex), scale: None, offset: None, units: None }) {
                Ok(f) => Ok(WatchfaceSettings::MessageIndex(f)),
                Err(x) => Err(x),
            },
            0 => match decode_field(buffer, endian, FieldProfile { base: BaseType::Enum, profile_type: Some(ProfileType::WatchfaceMode), scale: None, offset: None, units: None }) {
                Ok(f) => Ok(WatchfaceSettings::Mode(f)),
                Err(x) => Err(x),
            },
            1 => match decode_field(buffer, endian, FieldProfile { base: BaseType::Bytes, profile_type: None, scale: None, offset: None, units: None }) {
                Ok(f) => Ok(WatchfaceSettings::Layout(f)),
                Err(x) => Err(x),
            },
            _ => Ok(WatchfaceSettings::Unknown { data: slice_to_vec(buffer), field_def_num }),
        }
    }
}

#[derive(Debug, Clone)]
pub enum OhrSettings {
    Enabled(Field),
    Unknown { data: Vec<u8>, field_def_num: u8 },
}

impl OhrSettings {
    /// The profile entry of each field of this message.
    pub open spec fn profile(field_def_num: u8) -> Option<FieldProfile> {
        match field_def_num {
            0 => Some(FieldProfile { base: BaseType::Enum, profile_type: Some(ProfileType::Switch), scale: None, offset: None, units: None }),
            _ => None,
        }
    }

    /// The field this value holds.
    pub open spec fn entry(&self) -> FieldEntry {
        match self {
            OhrSettings::Enabled(f) => FieldEntry::Known { num: 0, field: f@ },
            OhrSettings::Unknown { data, field_def_num } => FieldEntry::Unknown { num: *field_def_num, data: data@ },
        }
    }

    /// Decodes the byte run `buffer` of field `field_def_num` of this message.
    pub fn decode(buffer: &[u8], field_def_num: u8, endian: Endian) -> (r: Result<Self, Error>)
        ensures
            match r {
                Ok(m) => decode_entry(Self::profile(field_def_num), field_def_num, buffer@, endian)
                    == Ok::<FieldEntry, Error>(m.entry()),
                Err(x) => decode_entry(Self::profile(field_def_num), field_def_num, buffer@, endian)
                    == Err::<FieldEntry, Error>(x),
            },
    {
        match field_def_num {
            0 => match decode_field(buffer, endian, FieldProfile { base: BaseType::Enum, profile_type: Some(ProfileType::Switch), scale: None, offset: None, units: None }) {
                Ok(f) => Ok(OhrSettings::Enabled(f)),
                Err(x) => Err(x),
            },
            _ => Ok(OhrSettings::Unknown { data: slice_to_vec(buffer), field_def_num }),
        }
    }
}

#[derive(Debug, Clone)]
pub enum ZonesTarget {
    MaxHeartRate(Field),
    ThresholdHeartRate(Field),
    FunctionalThresholdPower(Field),
    HrCalcType(Field),
    PwrCalcType(Field),
    Unknown { data: Vec<u8>, field_def_num: u8 },
}

impl ZonesTarget {
    /// The profile entry of each field of this message.
    pub open spec fn profile(field_def_num: u8) -> Option<FieldProfile> {
        match field_def_num {
            1 => Some(FieldProfile { base: BaseType::Uint8, profile_type: None, scale: None, offset: None, units: None }),
            2 => Some(FieldProfile { base: BaseType::Uint8, profile_type: None, scale: None, offset: None, units: None }),
            3 => Some(FieldProfile { base: BaseType::Uint16, profile_type: None, scale: None, offset: None, units: None }),
            5 => Some(FieldProfile { base: BaseType::Enum, profile_type: Some(ProfileType::HrZoneCalc), scale: None, offset: None, units: None }),
            7 => Some(FieldProfile { base: BaseType::Enum, profile_type: Some(ProfileType::PwrZoneCalc), scale: None, offset: None, units: None }),
            _ => None,
        }
    }

    /// The field this value holds.
    pub open spec fn entry(&self) -> FieldEntry {
        match self {
            ZonesTarget::MaxHeartRate(f) => FieldEntry::Known { num: 1, field: f@ },
            ZonesTarget::ThresholdHeartRate(f) => FieldEntry::Known { num: 2, field: f@ },
            ZonesTarget::FunctionalThresholdPower(f) => FieldEntry::Known { num: 3, field: f@ },
            ZonesTarget::HrCalcType(f) => FieldEntry::Known { num: 5, field: f@ },
            ZonesTarget::PwrCalcType(f) => FieldEntry::Known { num: 7, field: f@ },
            ZonesTarget::Unknown { data, field_def_num } => FieldEntry::Unknown { num: *field_def_num, data: data@ },
        }
    }

    /// Decodes the byte run `buffer` of field `field_def_num` of this message.
    pub fn decode(buffer: &[u8], field_def_num: u8, endian: Endian) -> (r: Result<Self, Error>)
        ensures
            match r {
                Ok(m) => decode_entry(Self::profile(field_def_num), field_def_num, buffer@, endian)
                    == Ok::<FieldEntry, Error>(m.entry()),
                Err(x) => decode_entry(Self::profile(field_def_num), field_def_num, buffer@, endian)
                    == Err::<FieldEntry, Error>(x),
            },
    {
        match field_def_num {
            1 => match decode_field(buffer, endian, FieldProfile { base: BaseType::Uint8, profile_type: None, scale: None, offset: None, units: None }) {
                Ok(f) => Ok(ZonesTarget::MaxHeartRate(f)),
                Err(x) => Err(x),
            },
            2 => match decode_field(buffer, endian, FieldProfile { base: BaseType::Uint8, profile_type: None, scale: None, offset: None, units: None }) {
                Ok(f) => Ok(ZonesTarget::ThresholdHeartRate(f)),
                Err(x) => Err(x),
            },
            3 => match decode_field(buffer, endian, FieldProfile { base: BaseType::Uint16, profile_type: None, scale: None, offset: None, units: None }) {
                Ok(f) => Ok(ZonesTarget::FunctionalThresholdPower(f)),
                Err(x) => Err(x),
            },
            5 => match decode_field(buffer, endian, FieldProfile { base: BaseType::Enum, profile_type: Some(ProfileType::HrZoneCalc), scale: None, offset: None, units: None }) {
                Ok(f) => Ok(ZonesTarget::HrCalcType(f)),
                Err(x) => Err(x),
            },
            7 => match decode_field(buffer, endian, FieldProfile { base: BaseType::Enum, profile_type: Some(ProfileType::PwrZoneCalc), scale: None, offset: None, units: None }) {
                Ok(f) => Ok(ZonesTarget::PwrCalcType(f)),
                Err(x) => Err(x),
            },
            _ => Ok(ZonesTarget::Unknown { data: slice_to_vec(buffer), field_def_num }),
        }
    }
}

#[derive(Debug, Clone)]
pub enum Sport {
    Sport(Field),
    SubSport(Field),
    Name(Field),
    Unknown { data: Vec<u8>, field_def_num: u8 },
}

impl Sport {
    /// The profile entry of each field of this message.
    pub open spec fn profile(field_def_num: u8) -> Option<FieldProfile> {
        match field_def_num {
            0 => Some(FieldProfile { base: BaseType::Enum, profile_type: Some(ProfileType::Sport), scale: None, offset: None, units: None }),
            1 => Some(FieldProfile { base: BaseType::Enum, profile_type: Some(ProfileType::SubSport), scale: None, offset: None, units: None }),
            3 => Some(FieldProfile { base: BaseType::Utf8String, profile_type: None, scale: None, offset: None, units: None }),
            _ => None,
        }
    }

    /// The field this value holds.
    pub open spec fn entry(&self) -> FieldEntry {
        match self {
            Sport::Sport(f) => FieldEntry::Known { num: 0, field: f@ },
            Sport::SubSport(f) => FieldEntry::Known { num: 1, field: f@ },
            Sport::Name(f) => FieldEntry::Known { num: 3, field: f@ },
            Sport::Unknown { data, field_def_num } => FieldEntry::Unknown { num: *field_def_num, data: data@ },
        }
    }

    /// Decodes the byte run `buffer` of field `field_def_num` of this message.
    pub fn decode(buffer: &[u8], field_def_num: u8, endian: Endian) -> (r: Result<Self, Error>)
        ensures
            match r {
                Ok(m) => decode_entry(Self::profile(field_def_num), field_def_num, buffer@, endian)
                    == Ok::<FieldEntry, Error>(m.entry()),
                Err(x) => decode_entry(Self::profile(field_def_num), field_def_num, buffer@, endian)
                    == Err::<FieldEntry, Error>(x),
            },
    {
        match field_def_num {
            0 => match decode_field(buffer, endian, FieldProfile { base: BaseType::Enum, profile_type: Some(ProfileType::Sport), scale: None, offset: None, units: None }) {
                Ok(f) => Ok(Sport::Sport(f)),
                Err(x) => Err(x),
            },
            1 => match decode_field(buffer, endian, FieldProfile { base: BaseType::Enum, profile_type: Some(ProfileType::SubSport), scale: None, offset: None, units: None }) {
                Ok(f) => Ok(Sport::SubSport(f)),
                Err(x) => Err(x),
            },
            3 => match decode_field(buffer, endian, FieldProfile { base: BaseType::Utf8String, profile_type: None, scale: None, offset: None, units: None }) {
                Ok(f) => Ok(Sport::Name(f)),
                Err(x) => Err(x),
            },
            _ => Ok(Sport::Unknown { data: slice_to_vec(buffer), field_def_num }),
        }
    }
}

#[derive(Debug, Clone)]
pub enum HrZone {
    MessageIndex(Field),
    HighBpm(Field),
    Name(Field),
    Unknown { data: Vec<u8>, field_def_num: u8 },
}

impl HrZone {
    /// The profile entry of each field of this message.
    pub open spec fn profile(field_def_num: u8) -> Option<FieldProfile> {
        match field_def_num {
            254 => Some(FieldProfile { base: BaseType::Uint16, profile_type: Some(ProfileType::MessageIndex), scale: None, offset: None, units: None }),
            1 => Some(FieldProfile { base: BaseType::Uint8, profile_type: None, scale: None, offset: None, units: Some("bpm") }),
            2 => Some(FieldProfile { base: BaseType::Utf8String, profile_type: None, scale: None, offset: None, units: None }),
            _ => None,
        }
    }

    /// The field this value holds.
    pub open spec fn entry(&self) -> FieldEntry {
        match self {
            HrZone::MessageIndex(f) => FieldEntry::Known { num: 254, field: f@ },
            HrZone::HighBpm(f) => FieldEntry::Known { num: 1, field: f@ },
            HrZone::Name(f) => FieldEntry::Known { num: 2, field: f@ },
            HrZone::Unknown { data, field_def_num } => FieldEntry::Unknown { num: *field_def_num, data: data@ },
        }
    }

    /// Decodes the byte run `buffer` of field `field_def_num` of this message.
    pub fn decode(buffer: &[u8], field_def_num: u8, endian: Endian) -> (r: Result<Self, Error>)
        ensures
            match r {
                Ok(m) => decode_entry(Self::profile(field_def_num), field_def_num, buffer@, endian)
                    == Ok::<FieldEntry, Error>(m.entry()),
                Err(x) => decode_entry(Self::profile(field_def_num), field_def_num, buffer@, endian)
                    == Err::<FieldEntry, Error>(x),
            },
    {
        match field_def_num {
            254 => match decode_field(buffer, endian, FieldProfile { base: BaseType::Uint16, profile_type: Some(ProfileType::MessageIndex), scale: None, offset: None, units: None }) {
                Ok(f) => Ok(HrZone::MessageIndex(f)),
                Err(x) => Err(x),
            },
            1 => match decode_field(buffer, endian, FieldProfile { base: BaseType::Uint8, profile_type: None, scale: None, offset: None, units: Some("bpm") }) {
                Ok(f) => Ok(HrZone::HighBpm(f)),
                Err(x) => Err(x),
            },
            2 => match decode_field(buffer, endian, FieldProfile { base: BaseType::Utf8String, profile_type: None, scale: None, offset: None, units: None }) {
                Ok(f) => Ok(HrZone::Name(f)),
                Err(x) => Err(x),
            },
            _ => Ok(HrZone::Unknown { data: slice_to_vec(buffer), field_def_num }),
        }
    }
}

#[derive(Debug, Clone)]
pub enum SpeedZone {
    MessageIndex(Field),
    HighValue(Field),
    Name(Field),
    Unknown { data: Vec<u8>, field_def_num: u8 },
}

impl SpeedZone {
    /// The profile entry of each field of this message.
    pub open spec fn profile(field_def_num: u8) -> Option<FieldProfile> {
        match field_def_num {
            254 => Some(FieldProfile { base: BaseType::Uint16, profile_type: Some(ProfileType::MessageIndex), scale: None, offset: None, units: None }),
            0 => Some(FieldProfile { base: BaseType::Uint16, profile_type: None, scale: Some(Scale { num: 1000, den: 1 }), offset: None, units: Some("m/s") }),
            1 => Some(FieldProfile { base: BaseType::Utf8String, profile_type: None, scale: None, offset: None, units: None }),
            _ => None,
        }
    }

    /// The field this value holds.
    pub open spec fn entry(&self) -> FieldEntry {
        match self {
            SpeedZone::MessageIndex(f) => FieldEntry::Known { num: 254, field: f@ },
            SpeedZone::HighValue(f) => FieldEntry::Known { num: 0, field: f@ },
            SpeedZone::Name(f) => FieldEntry::Known { num: 1, field: f@ },
            SpeedZone::Unknown { data, field_def_num } => FieldEntry::Unknown { num: *field_def_num, data: data@ },
        }
    }

    /// Decodes the byte run `buffer` of field `field_def_num` of this message.
    pub fn decode(buffer: &[u8], field_def_num: u8, endian: Endian) -> (r: Result<Self, Error>)
        ensures
            match r {
                Ok(m) => decode_entry(Self::profile(field_def_num), field_def_num, buffer@, endian)
                    == Ok::<FieldEntry, Error>(m.entry()),
                Err(x) => decode_entry(Self::profile(field_def_num), field_def_num, buffer@, endian)
                    == Err::<FieldEntry, Error>(x),
            },
    {
        match field_def_num {
            254 => match decode_field(buffer, endian, FieldProfile { base: BaseType::Uint16, profile_type: Some(ProfileType::MessageIndex), scale: None, offset: None, units: None }) {
                Ok(f) => Ok(SpeedZone::MessageIndex(f)),
                Err(x) => Err(x),
            },
            0 => match decode_field(buffer, endian, FieldProfile { base: BaseType::Uint16, profile_type: None, scale: Some(Scale { num: 1000, den: 1 }), offset: None, units: Some("m/s") }) {
                Ok(f) => Ok(SpeedZone::HighValue(f)),
                Err(x) => Err(x),
            },
            1 => match decode_field(buffer, endian, FieldProfile { base: BaseType::Utf8String, profile_type: None, scale: None, offset: None, units: None }) {
                Ok(f) => Ok(SpeedZone::Name(f)),
                Err(x) => Err(x),
            },
            _ => Ok(SpeedZone::Unknown { data: slice_to_vec(buffer), field_def_num }),
        }
    }
}

#[derive(Debug, Clone)]
pub enum CadenceZone {
    MessageIndex(Field),
    HighValue(Field),
    Name(Field),
    Unknown { data: Vec<u8>, field_def_num: u8 },
}

impl CadenceZone {
    /// The profile entry of each field of this message.
    pub open spec fn profile(field_def_num: u8) -> Option<FieldProfile> {
        match field_def_num {
            254 => Some(FieldProfile { base: BaseType::Uint16, profile_type: Some(ProfileType::MessageIndex), scale: None, offset: None, units: None }),
            0 => Some(FieldProfile { base: BaseType::Uint8, profile_type: None, scale: None, offset: None, units: Some("rpm") }),
            1 => Some(FieldProfile { base: BaseType::Utf8String, profile_type: None, scale: None, offset: None, units: None }),
            _ => None,
        }
    }

    /// The field this value holds.
    pub open spec fn entry(&self) -> FieldEntry {
        match self {
            CadenceZone::MessageIndex(f) => FieldEntry::Known { num: 254, field: f@ },
            CadenceZone::HighValue(f) => FieldEntry::Known { num: 0, field: f@ },
            CadenceZone::Name(f) => FieldEntry::Known { num: 1, field: f@ },
            CadenceZone::Unknown { data, field_def_num } => FieldEntry::Unknown { num: *field_def_num, data: data@ },
        }
    }

    /// Decodes the byte run `buffer` of field `field_def_num` of this message.
    pub fn decode(buffer: &[u8], field_def_num: u8, endian: Endian) -> (r: Result<Self, Error>)
        ensures
            match r {
                Ok(m) => decode_entry(Self::profile(field_def_num), field_def_num, buffer@, endian)
                    == Ok::<FieldEntry, Error>(m.entry()),
                Err(x) => decode_entry(Self::profile(field_def_num), field_def_num, buffer@, endian)
                    == Err::<FieldEntry, Error>(x),
            },
    {
        match field_def_num {
            254 => match decode_field(buffer, endian, FieldProfile { base: BaseType::Uint16, profile_type: Some(ProfileType::MessageIndex), scale: None, offset: None, units: None }) {
                Ok(f) => Ok(CadenceZone::MessageIndex(f)),
                Err(x) => Err(x),
            },
            0 => match decode_field(buffer, endian, FieldProfile { base: BaseType::Uint8, profile_type: None, scale: None, offset: None, units: Some("rpm") }) {
                Ok(f) => Ok(CadenceZone::HighValue(f)),
                Err(x) => Err(x),
            },
            1 => match decode_field(buffer, endian, FieldProfile { base: BaseType::Utf8String, profile_type: None, scale: None, offset: None, units: None }) {
                Ok(f) => Ok(CadenceZone::Name(f)),
                Err(x) => Err(x),
            },
            _ => Ok(CadenceZone::Unknown { data: slice_to_vec(buffer), field_def_num }),
        }
    }
}

#[derive(Debug, Clone)]
pub enum PowerZone {
    MessageIndex(Field),
    HighValue(Field),
    Name(Field),
    Unknown { data: Vec<u8>, field_def_num: u8 },
}

impl PowerZone {
    /// The profile entry of each field of this message.
    pub open spec fn profile(field_def_num: u8) -> Option<FieldProfile> {
        match field_def_num {
            254 => Some(FieldProfile { base: BaseType::Uint16, profile_type: Some(ProfileType::MessageIndex), scale: None, offset: None, units: None }),
            1 => Some(FieldProfile { base: BaseType::Uint16, profile_type: None, scale: None, offset: None, units: Some("watts") }),
            2 => Some(FieldProfile { base: BaseType::Utf8String, profile_type: None, scale: None, offset: None, units: None }),
            _ => None,
        }
    }

    /// The field this value holds.
    pub open spec fn entry(&self) -> FieldEntry {
        match self {
            PowerZone::MessageIndex(f) => FieldEntry::Known { num: 254, field: f@ },
            PowerZone::HighValue(f) => FieldEntry::Known { num: 1, field: f@ },
            PowerZone::Name(f) => FieldEntry::Known { num: 2, field: f@ },
            PowerZone::Unknown { data, field_def_num } => FieldEntry::Unknown { num: *field_def_num, data: data@ },
        }
    }

    /// Decodes the byte run `buffer` of field `field_def_num` of this message.
    pub fn decode(buffer: &[u8], field_def_num: u8, endian: Endian) -> (r: Result<Self, Error>)
        ensures
            match r {
                Ok(m) => decode_entry(Self::profile(field_def_num), field_def_num, buffer@, endian)
                    == Ok::<FieldEntry, Error>(m.entry()),
                Err(x) => decode_entry(Self::profile(field_def_num), field_def_num, buffer@, endian)
                    == Err::<FieldEntry, Error>(x),
            },
    {
        match field_def_num {
            254 => match decode_field(buffer, endian, FieldProfile { base: BaseType::Uint16, profile_type: Some(ProfileType::MessageIndex), scale: None, offset: None, units: None }) {
                Ok(f) => Ok(PowerZone::MessageIndex(f)),
                Err(x) => Err(x),
            },
            1 => match decode_field(buffer, endian, FieldProfile { base: BaseType::Uint16, profile_type: None, scale: None, offset: None, units: Some("watts") }) {
                Ok(f) => Ok(PowerZone::HighValue(f)),
                Err(x) => Err(x),
            },
            2 => match decode_field(buffer, endian, FieldProfile { base: BaseType::Utf8String, profile_type: None, scale: None, offset: None, units: None }) {
                Ok(f) => Ok(PowerZone::Name(f)),
                Err(x) => Err(x),
            },
            _ => Ok(PowerZone::Unknown { data: slice_to_vec(buffer), field_def_num }),
        }
    }
}

#[derive(Debug, Clone)]
pub enum MetZone {
    MessageIndex(Field),
    HighBpm(Field),
    Calories(Field),
    FatCalories(Field),
    Unknown { data: Vec<u8>, field_def_num: u8 },
}

impl MetZone {
    /// The profile entry of each field of this message.
    pub open spec fn profile(field_def_num: u8) -> Option<FieldProfile> {
        match field_def_num {
            254 => Some(FieldProfile { base: BaseType::Uint16, profile_type: Some(ProfileType::MessageIndex), scale: None, offset: None, units: None }),
            1 => Some(FieldProfile { base: BaseType::Uint8, profile_type: None, scale: None, offset: None, units: None }),
            2 => Some(FieldProfile { base: BaseType::Uint16, profile_type: None, scale: Some(Scale { num: 10, den: 1 }), offset: None, units: Some("kcal / min") }),
            3 => Some(FieldProfile { base: BaseType::Uint8, profile_type: None, scale: Some(Scale { num: 10, den: 1 }), offset: None, units: Some("kcal / min") }),
            _ => None,
        }
    }

    /// The field this value holds.
    pub open spec fn entry(&self) -> FieldEntry {
        match self {
            MetZone::MessageIndex(f) => FieldEntry::Known { num: 254, field: f@ },
            MetZone::HighBpm(f) => FieldEntry::Known { num: 1, field: f@ },
            MetZone::Calories(f) => FieldEntry::Known { num: 2, field: f@ },
            MetZone::FatCalories(f) => FieldEntry::Known { num: 3, field: f@ },
            MetZone::Unknown { data, field_def_num } => FieldEntry::Unknown { num: *field_def_num, data: data@ },
        }
    }

    /// Decodes the byte run `buffer` of field `field_def_num` of this message.
    pub fn decode(buffer: &[u8], field_def_num: u8, endian: Endian) -> (r: Result<Self, Error>)
        ensures
            match r {
                Ok(m) => decode_entry(Self::profile(field_def_num), field_def_num, buffer@, endian)
                    == Ok::<FieldEntry, Error>(m.entry()),
                Err(x) => decode_entry(Self::profile(field_def_num), field_def_num, buffer@, endian)
                    == Err::<FieldEntry, Error>(x),
            },
    {
        match field_def_num {
            254 => match decode_field(buffer, endian, FieldProfile { base: BaseType::Uint16, profile_type: Some(ProfileType::MessageIndex), scale: None, offset: None, units: None }) {
                Ok(f) => Ok(MetZone::MessageIndex(f)),
                Err(x) => Err(x),
            },
            1 => match decode_field(buffer, endian, FieldProfile { base: BaseType::Uint8, profile_type: None, scale: None, offset: None, units: None }) {
                Ok(f) => Ok(MetZone::HighBpm(f)),
                Err(x) => Err(x),
            },
            2 => match decode_field(buffer, endian, FieldProfile { base: BaseType::Uint16, profile_type: None, scale: Some(Scale { num: 10, den: 1 }), offset: None, units: Some("kcal / min") }) {
                Ok(f) => Ok(MetZone::Calories(f)),
                Err(x) => Err(x),
            },
            3 => match decode_field(buffer, endian, FieldProfile { base: BaseType::Uint8, profile_type: None, scale: Some(Scale { num: 10, den: 1 }), offset: None, units: Some("kcal / min") }) {
                Ok(f) => Ok(MetZone::FatCalories(f)),
                Err(x) => Err(x),
            },
            _ => Ok(MetZone::Unknown { data: slice_to_vec(buffer), field_def_num }),
        }
    }
}

#[derive(Debug, Clone)]
pub enum DiveSettings {
    MessageIndex(Field),
    Name(Field),
    Model(Field),
    GfLow(Field),
    GfHigh(Field),
    WaterType(Field),
    /// Fresh water is usually 1000; salt water is usually 1025
    WaterDensity(Field),
    /// Typically 1.40
    Po2Warn(Field),
    /// Typically 1.60
    Po2Critical(Field),
    Po2Deco(Field),
    SafetyStopEnabled(Field),
    BottomDepth(Field),
    BottomTime(Field),
    ApneaCountdownEnabled(Field),
    ApneaCountdownTime(Field),
    BacklightMode(Field),
    BacklightBrightness(Field),
    BacklightTimeout(Field),
    /// Time between surfacing and ending the activity
    RepeatDiveInterval(Field),
    /// Time at safety stop (if enabled)
    SafetyStopTime(Field),
    HeartRateSourceType(Field),
    HeartRateSource(Field),
    Unknown { data: Vec<u8>, field_def_num: u8 },
}

impl DiveSettings {
    /// The profile entry of each field of this message.
    pub open spec fn profile(field_def_num: u8) -> Option<FieldProfile> {
        match field_def_num {
            254 => Some(FieldProfile { base: BaseType::Uint16, profile_type: Some(ProfileType::MessageIndex), scale: None, offset: None, units: None }),
            0 => Some(FieldProfile { base: BaseType::Utf8String, profile_type: None, scale: None, offset: None, units: None }),
            1 => Some(FieldProfile { base: BaseType::Enum, profile_type: Some(ProfileType::TissueModelType), scale: None, offset: None, units: None }),
            2 => Some(FieldProfile { base: BaseType::Uint8, profile_type: None, scale: None, offset: None, units: Some("percent") }),
            3 => Some(FieldProfile { base: BaseType::Uint8, profile_type: None, scale: None, offset: None, units: Some("percent") }),
            4 => Some(FieldProfile { base: BaseType::Enum, profile_type: Some(ProfileType::WaterType), scale: None, offset: None, units: None }),
            5 => Some(FieldProfile { base: BaseType::Float32, profile_type: None, scale: None, offset: None, units: Some("kg/m^3") }),
            6 => Some(FieldProfile { base: BaseType::Uint8, profile_type: None, scale: Some(Scale { num: 100, den: 1 }), offset: None, units: Some("percent") }),
            7 => Some(FieldProfile { base: BaseType::Uint8, profile_type: None, scale: Some(Scale { num: 100, den: 1 }), offset: None, units: Some("percent") }),
            8 => Some(FieldProfile { base: BaseType::Uint8, profile_type: None, scale: Some(Scale { num: 100, den: 1 }), offset: None, units: Some("percent") }),
            9 => Some(FieldProfile { base: BaseType::Bool, profile_type: None, scale: None, offset: None, units: None }),
            10 => Some(FieldProfile { base: BaseType::Float32, profile_type: None, scale: None, offset: None, units: None }),
            11 => Some(FieldProfile { base: BaseType::Uint32, profile_type: None, scale: None, offset: None, units: None }),
            12 => Some(FieldProfile { base: BaseType::Bool, profile_type: None, scale: None, offset: None, units: None }),
            13 => Some(FieldProfile { base: BaseType::Uint32, profile_type: None, scale: None, offset: None, units: None }),
            14 => Some(FieldProfile { base: BaseType::Enum, profile_type: Some(ProfileType::DiveBacklightMode), scale: None, offset: None, units: None }),
            15 => Some(FieldProfile { base: BaseType::Uint8, profile_type: None, scale: None, offset: None, units: None }),
            16 => Some(FieldProfile { base: BaseType::Uint8, profile_type: Some(ProfileType::BacklightTimeout), scale: None, offset: None, units: None }),
            17 => Some(FieldProfile { base: BaseType::Uint16, profile_type: None, scale: Some(Scale { num: 1, den: 1 }), offset: None, units: Some("s") }),
            18 => Some(FieldProfile { base: BaseType::Uint16, profile_type: None, scale: Some(Scale { num: 1, den: 1 }), offset: None, units: Some("s") }),
            19 => Some(FieldProfile { base: BaseType::Enum, profile_type: Some(ProfileType::SourceType), scale: None, offset: None, units: None }),
            20 => Some(FieldProfile { base: BaseType::Uint8, profile_type: None, scale: None, offset: None, units: None }),
            _ => None,
        }
    }

    /// The field this value holds.
    pub open spec fn entry(&self) -> FieldEntry {
        match self {
            DiveSettings::MessageIndex(f) => FieldEntry::Known { num: 254, field: f@ },
            DiveSettings::Name(f) => FieldEntry::Known { num: 0, field: f@ },
            DiveSettings::Model(f) => FieldEntry::Known { num: 1, field: f@ },
            DiveSettings::GfLow(f) => FieldEntry::Known { num: 2, field: f@ },
            DiveSettings::GfHigh(f) => FieldEntry::Known { num: 3, field: f@ },
            DiveSettings::WaterType(f) => FieldEntry::Known { num: 4, field: f@ },
            DiveSettings::WaterDensity(f) => FieldEntry::Known { num: 5, field: f@ },
            DiveSettings::Po2Warn(f) => FieldEntry::Known { num: 6, field: f@ },
            DiveSettings::Po2Critical(f) => FieldEntry::Known { num: 7, field: f@ },
            DiveSettings::Po2Deco(f) => FieldEntry::Known { num: 8, field: f@ },
            DiveSettings::SafetyStopEnabled(f) => FieldEntry::Known { num: 9, field: f@ },
            DiveSettings::BottomDepth(f) => FieldEntry::Known { num: 10, field: f@ },
            DiveSettings::BottomTime(f) => FieldEntry::Known { num: 11, field: f@ },
            DiveSettings::ApneaCountdownEnabled(f) => FieldEntry::Known { num: 12, field: f@ },
            DiveSettings::ApneaCountdownTime(f) => FieldEntry::Known { num: 13, field: f@ },
            DiveSettings::BacklightMode(f) => FieldEntry::Known { num: 14, field: f@ },
            DiveSettings::BacklightBrightness(f) => FieldEntry::Known { num: 15, field: f@ },
            DiveSettings::BacklightTimeout(f) => FieldEntry::Known { num: 16, field: f@ },
            DiveSettings::RepeatDiveInterval(f) => FieldEntry::Known { num: 17, field: f@ },
            DiveSettings::SafetyStopTime(f) => FieldEntry::Known { num: 18, field: f@ },
            DiveSettings::HeartRateSourceType(f) => FieldEntry::Known { num: 19, field: f@ },
            DiveSettings::HeartRateSource(f) => FieldEntry::Known { num: 20, field: f@ },
            DiveSettings::Unknown { data, field_def_num } => FieldEntry::Unknown { num: *field_def_num, data: data@ },
        }
    }

    /// Decodes the byte run `buffer` of field `field_def_num` of this message.
    pub fn decode(buffer: &[u8], field_def_num: u8, endian: Endian) -> (r: Result<Self, Error>)
        ensures
            match r {
                Ok(m) => decode_entry(Self::profile(field_def_num), field_def_num, buffer@, endian)
                    == Ok::<FieldEntry, Error>(m.entry()),
                Err(x) => decode_entry(Self::profile(field_def_num), field_def_num, buffer@, endian)
                    == Err::<FieldEntry, Error>(x),
            },
    {
        match field_def_num {
            254 => match decode_field(buffer, endian, FieldProfile { base: BaseType::Uint16, profile_type: Some(ProfileType::MessageIndex), scale: None, offset: None, units: None }) {
                Ok(f) => Ok(DiveSettings::MessageIndex(f)),
                Err(x) => Err(x),
            },
            0 => match decode_field(buffer, endian, FieldProfile { base: BaseType::Utf8String, profile_type: None, scale: None, offset: None, units: None }) {
                Ok(f) => Ok(DiveSettings::Name(f)),
                Err(x) => Err(x),
            },
            1 => match decode_field(buffer, endian, FieldProfile { base: BaseType::Enum, profile_type: Some(ProfileType::TissueModelType), scale: None, offset: None, units: None }) {
                Ok(f) => Ok(DiveSettings::Model(f)),
                Err(x) => Err(x),
            },
            2 => match decode_field(buffer, endian, FieldProfile { base: BaseType::Uint8, profile_type: None, scale: None, offset: None, units: Some("percent") }) {
                Ok(f) => Ok(DiveSettings::GfLow(f)),
                Err(x) => Err(x),
            },
            3 => match decode_field(buffer, endian, FieldProfile { base: BaseType::Uint8, profile_type: None, scale: None, offset: None, units: Some("percent") }) {
                Ok(f) => Ok(DiveSettings::GfHigh(f)),
                Err(x) => Err(x),
            },
            4 => match decode_field(buffer, endian, FieldProfile { base: BaseType::Enum, profile_type: Some(ProfileType::WaterType), scale: None, offset: None, units: None }) {
                Ok(f) => Ok(DiveSettings::WaterType(f)),
                Err(x) => Err(x),
            },
            5 => match decode_field(buffer, endian, FieldProfile { base: BaseType::Float32, profile_type: None, scale: None, offset: None, units: Some("kg/m^3") }) {
                Ok(f) => Ok(DiveSettings::WaterDensity(f)),
                Err(x) => Err(x),
            },
            6 => match decode_field(buffer, endian, FieldProfile { base: BaseType::Uint8, profile_type: None, scale: Some(Scale { num: 100, den: 1 }), offset: None, units: Some("percent") }) {
                Ok(f) => Ok(DiveSettings::Po2Warn(f)),
                Err(x) => Err(x),
            },
            7 => match decode_field(buffer, endian, FieldProfile { base: BaseType::Uint8, profile_type: None, scale: Some(Scale { num: 100, den: 1 }), offset: None, units: Some("percent") }) {
                Ok(f) => Ok(DiveSettings::Po2Critical(f)),
                Err(x) => Err(x),
            },
            8 => match decode_field(buffer, endian, FieldProfile { base: BaseType::Uint8, profile_type: None, scale: Some(Scale { num: 100, den: 1 }), offset: None, units: Some("percent") }) {
                Ok(f) => Ok(DiveSettings::Po2Deco(f)),
                Err(x) => Err(x),
            },
            9 => match decode_field(buffer, endian, FieldProfile { base: BaseType::Bool, profile_type: None, scale: None, offset: None, units: None }) {
                Ok(f) => Ok(DiveSettings::SafetyStopEnabled(f)),
                Err(x) => Err(x),
            },
            10 => match decode_field(buffer, endian, FieldProfile { base: BaseType::Float32, profile_type: None, scale: None, offset: None, units: None }) {
                Ok(f) => Ok(DiveSettings::BottomDepth(f)),
                Err(x) => Err(x),
            },
            11 => match decode_field(buffer, endian, FieldProfile { base: BaseType::Uint32, profile_type: None, scale: None, offset: None, units: None }) {
                Ok(f) => Ok(DiveSettings::BottomTime(f)),
                Err(x) => Err(x),
            },
            12 => match decode_field(buffer, endian, FieldProfile { base: BaseType::Bool, profile_type: None, scale: None, offset: None, units: None }) {
                Ok(f) => Ok(DiveSettings::ApneaCountdownEnabled(f)),
                Err(x) => Err(x),
            },
            13 => match decode_field(buffer, endian, FieldProfile { base: BaseType::Uint32, profile_type: None, scale: None, offset: None, units: None }) {
                Ok(f) => Ok(DiveSettings::ApneaCountdownTime(f)),
                Err(x) => Err(x),
            },
            14 => match decode_field(buffer, endian, FieldProfile { base: BaseType::Enum, profile_type: Some(ProfileType::DiveBacklightMode), scale: None, offset: None, units: None }) {
                Ok(f) => Ok(DiveSettings::BacklightMode(f)),
                Err(x) => Err(x),
            },
            15 => match decode_field(buffer, endian, FieldProfile { base: BaseType::Uint8, profile_type: None, scale: None, offset: None, units: None }) {
                Ok(f) => Ok(DiveSettings::BacklightBrightness(f)),
                Err(x) => Err(x),
            },
            16 => match decode_field(buffer, endian, FieldProfile { base: BaseType::Uint8, profile_type: Some(ProfileType::BacklightTimeout), scale: None, offset: None, units: None }) {
                Ok(f) => Ok(DiveSettings::BacklightTimeout(f)),
                Err(x) => Err(x),
            },
            17 => match decode_field(buffer, endian, FieldProfile { base: BaseType::Uint16, profile_type: None, scale: Some(Scale { num: 1, den: 1 }), offset: None, units: Some("s") }) {
                Ok(f) => Ok(DiveSettings::RepeatDiveInterval(f)),
                Err(x) => Err(x),
            },
            18 => match decode_field(buffer, endian, FieldProfile { base: BaseType::Uint16, profile_type: None, scale: Some(Scale { num: 1, den: 1 }), offset: None, units: Some("s") }) {
                Ok(f) => Ok(DiveSettings::SafetyStopTime(f)),
                Err(x) => Err(x),
            },
            19 => match decode_field(buffer, endian, FieldProfile { base: BaseType::Enum, profile_type: Some(ProfileType::SourceType), scale: None, offset: None, units: None }) {
                Ok(f) => Ok(DiveSettings::HeartRateSourceType(f)),
                Err(x) => Err(x),
            },
            20 => match decode_field(buffer, endian, FieldProfile { base: BaseType::Uint8, profile_type: None, scale: None, offset: None, units: None }) {
                Ok(f) => Ok(DiveSettings::HeartRateSource(f)),
                Err(x) => Err(x),
            },
            _ => Ok(DiveSettings::Unknown { data: slice_to_vec(buffer), field_def_num }),
        }
    }
}

#[derive(Debug, Clone)]
pub enum DiveAlarm {
    /// Index of the alarm
    MessageIndex(Field),
    Depth(Field),
    Time(Field),
    Enabled(Field),
    AlarmType(Field),
    Sound(Field),
    DiveTypes(Field),
    Unknown { data: Vec<u8>, field_def_num: u8 },
}

impl DiveAlarm {
    /// The profile entry of each field of this message.
    pub open spec fn profile(field_def_num: u8) -> Option<FieldProfile> {
        match field_def_num {
            254 => Some(FieldProfile { base: BaseType::Uint16, profile_type: Some(ProfileType::MessageIndex), scale: None, offset: None, units: None }),
            0 => Some(FieldProfile { base: BaseType::Uint32, profile_type: None, scale: Some(Scale { num: 1000, den: 1 }), offset: None, units: Some("m") }),
            1 => Some(FieldProfile { base: BaseType::Sint32, profile_type: None, scale: Some(Scale { num: 1, den: 1 }), offset: None, units: Some("s") }),
            2 => Some(FieldProfile { base: BaseType::Bool, profile_type: None, scale: None, offset: None, units: None }),
            3 => Some(FieldProfile { base: BaseType::Enum, profile_type: Some(ProfileType::DiveAlarmType), scale: None, offset: None, units: None }),
            4 => Some(FieldProfile { base: BaseType::Enum, profile_type: Some(ProfileType::Tone), scale: None, offset: None, units: None }),
            5 => Some(FieldProfile { base: BaseType::Enum, profile_type: Some(ProfileType::SubSport), scale: None, offset: None, units: None }),
            _ => None,
        }
    }

    /// The field this value holds.
    pub open spec fn entry(&self) -> FieldEntry {
        match self {
            DiveAlarm::MessageIndex(f) => FieldEntry::Known { num: 254, field: f@ },
            DiveAlarm::Depth(f) => FieldEntry::Known { num: 0, field: f@ },
            DiveAlarm::Time(f) => FieldEntry::Known { num: 1, field: f@ },
            DiveAlarm::Enabled(f) => FieldEntry::Known { num: 2, field: f@ },
            DiveAlarm::AlarmType(f) => FieldEntry::Known { num: 3, field: f@ },
            DiveAlarm::Sound(f) => FieldEntry::Known { num: 4, field: f@ },
            DiveAlarm::DiveTypes(f) => FieldEntry::Known { num: 5, field: f@ },
            DiveAlarm::Unknown { data, field_def_num } => FieldEntry::Unknown { num: *field_def_num, data: data@ },
        }
    }

    /// Decodes the byte run `buffer` of field `field_def_num` of this message.
    pub fn decode(buffer: &[u8], field_def_num: u8, endian: Endian) -> (r: Result<Self, Error>)
        ensures
            match r {
                Ok(m) => decode_entry(Self::profile(field_def_num), field_def_num, buffer@, endian)
                    == Ok::<FieldEntry, Error>(m.entry()),
                Err(x) => decode_entry(Self::profile(field_def_num), field_def_num, buffer@, endian)
                    == Err::<FieldEntry, Error>(x),
            },
    {
        match field_def_num {
            254 => match decode_field(buffer, endian, FieldProfile { base: BaseType::Uint16, profile_type: Some(ProfileType::MessageIndex), scale: None, offset: None, units: None }) {
                Ok(f) => Ok(DiveAlarm::MessageIndex(f)),
                Err(x) => Err(x),
            },
            0 => match decode_field(buffer, endian, FieldProfile { base: BaseType::Uint32, profile_type: None, scale: Some(Scale { num: 1000, den: 1 }), offset: None, units: Some("m") }) {
                Ok(f) => Ok(DiveAlarm::Depth(f)),
                Err(x) => Err(x),
            },
            1 => match decode_field(buffer, endian, FieldProfile { base: BaseType::Sint32, profile_type: None, scale: Some(Scale { num: 1, den: 1 }), offset: None, units: Some("s") }) {
                Ok(f) => Ok(DiveAlarm::Time(f)),
                Err(x) => Err(x),
            },
            2 => match decode_field(buffer, endian, FieldProfile { base: BaseType::Bool, profile_type: None, scale: None, offset: None, units: None }) {
                Ok(f) => Ok(DiveAlarm::Enabled(f)),
                Err(x) => Err(x),
            },
            3 => match decode_field(buffer, endian, FieldProfile { base: BaseType::Enum, profile_type: Some(ProfileType::DiveAlarmType), scale: None, offset: None, units: None }) {
                Ok(f) => Ok(DiveAlarm::AlarmType(f)),
                Err(x) => Err(x),
            },
            4 => match decode_field(buffer, endian, FieldProfile { base: BaseType::Enum, profile_type: Some(ProfileType::Tone), scale: None, offset: None, units: None }) {
                Ok(f) => Ok(DiveAlarm::Sound(f)),
                Err(x) => Err(x),
            },
            5 => match decode_field(buffer, endian, FieldProfile { base: BaseType::Enum, profile_type: Some(ProfileType::SubSport), scale: None, offset: None, units: None }) {
                Ok(f) => Ok(DiveAlarm::DiveTypes(f)),
                Err(x) => Err(x),
            },
            _ => Ok(DiveAlarm::Unknown { data: slice_to_vec(buffer), field_def_num }),
        }
    }
}

#[derive(Debug, Clone)]
pub enum DiveGas {
    MessageIndex(Field),
    HeliumContent(Field),
    OxygenContent(Field),
    Status(Field),
    Unknown { data: Vec<u8>, field_def_num: u8 },
}

impl DiveGas {
    /// The profile entry of each field of this message.
    pub open spec fn profile(field_def_num: u8) -> Option<FieldProfile> {
        match field_def_num {
            254 => Some(FieldProfile { base: BaseType::Uint16, profile_type: Some(ProfileType::MessageIndex), scale: None, offset: None, units: None }),
            0 => Some(FieldProfile { base: BaseType::Uint8, profile_type: None, scale: None, offset: None, units: Some("percent") }),
            1 => Some(FieldProfile { base: BaseType::Uint8, profile_type: None, scale: None, offset: None, units: Some("percent") }),
            2 => Some(FieldProfile { base: BaseType::Enum, profile_type: Some(ProfileType::DiveGasStatus), scale: None, offset: None, units: None }),
            _ => None,
        }
    }

    /// The field this value holds.
    pub open spec fn entry(&self) -> FieldEntry {
        match self {
            DiveGas::MessageIndex(f) => FieldEntry::Known { num: 254, field: f@ },
            DiveGas::HeliumContent(f) => FieldEntry::Known { num: 0, field: f@ },
            DiveGas::OxygenContent(f) => FieldEntry::Known { num: 1, field: f@ },
            DiveGas::Status(f) => FieldEntry::Known { num: 2, field: f@ },
            DiveGas::Unknown { data, field_def_num } => FieldEntry::Unknown { num: *field_def_num, data: data@ },
        }
    }

    /// Decodes the byte run `buffer` of field `field_def_num` of this message.
    pub fn decode(buffer: &[u8], field_def_num: u8, endian: Endian) -> (r: Result<Self, Error>)
        ensures
            match r {
                Ok(m) => decode_entry(Self::profile(field_def_num), field_def_num, buffer@, endian)
                    == Ok::<FieldEntry, Error>(m.entry()),
                Err(x) => decode_entry(Self::profile(field_def_num), field_def_num, buffer@, endian)
                    == Err::<FieldEntry, Error>(x),
            },
    {
        match field_def_num {
            254 => match decode_field(buffer, endian, FieldProfile { base: BaseType::Uint16, profile_type: Some(ProfileType::MessageIndex), scale: None, offset: None, units: None }) {
                Ok(f) => Ok(DiveGas::MessageIndex(f)),
                Err(x) => Err(x),
            },
            0 => match decode_field(buffer, endian, FieldProfile { base: BaseType::Uint8, profile_type: None, scale: None, offset: None, units: Some("percent") }) {
                Ok(f) => Ok(DiveGas::HeliumContent(f)),
                Err(x) => Err(x),
            },
            1 => match decode_field(buffer, endian, FieldProfile { base: BaseType::Uint8, profile_type: None, scale: None, offset: None, units: Some("percent") }) {
                Ok(f) => Ok(DiveGas::OxygenContent(f)),
                Err(x) => Err(x),
            },
            2 => match decode_field(buffer, endian, FieldProfile { base: BaseType::Enum, profile_type: Some(ProfileType::DiveGasStatus), scale: None, offset: None, units: None }) {
                Ok(f) => Ok(DiveGas::Status(f)),
                Err(x) => Err(x),
            },
            _ => Ok(DiveGas::Unknown { data: slice_to_vec(buffer), field_def_num }),
        }
    }
}

#[derive(Debug, Clone)]
pub enum Goal {
    MessageIndex(Field),
    Sport(Field),
    SubSport(Field),
    StartDate(Field),
    EndDate(Field),
    Type(Field),
    Value(Field),
    Repeat(Field),
    TargetValue(Field),
    Recurrence(Field),
    RecurrenceValue(Field),
    Enabled(Field),
    Source(Field),
    Unknown { data: Vec<u8>, field_def_num: u8 },
}

impl Goal {
    /// The profile entry of each field of this message.
    pub open spec fn profile(field_def_num: u8) -> Option<FieldProfile> {
        match field_def_num {
            254 => Some(FieldProfile { base: BaseType::Uint16, profile_type: Some(ProfileType::MessageIndex), scale: None, offset: None, units: None }),
            0 => Some(FieldProfile { base: BaseType::Enum, profile_type: Some(ProfileType::Sport), scale: None, offset: None, units: None }),
            1 => Some(FieldProfile { base: BaseType::Enum, profile_type: Some(ProfileType::SubSport), scale: None, offset: None, units: None }),
            2 => Some(FieldProfile { base: BaseType::Uint32, profile_type: Some(ProfileType::DateTime), scale: None, offset: None, units: None }),
            3 => Some(FieldProfile { base: BaseType::Uint32, profile_type: Some(ProfileType::DateTime), scale: None, offset: None, units: None }),
            4 => Some(FieldProfile { base: BaseType::Enum, profile_type: Some(ProfileType::Goal), scale: None, offset: None, units: None }),
            5 => Some(FieldProfile { base: BaseType::Uint32, profile_type: None, scale: None, offset: None, units: None }),
            6 => Some(FieldProfile { base: BaseType::Bool, profile_type: None, scale: None, offset: None, units: None }),
            7 => Some(FieldProfile { base: BaseType::Uint32, profile_type: None, scale: None, offset: None, units: None }),
            8 => Some(FieldProfile { base: BaseType::Enum, profile_type: Some(ProfileType::GoalRecurrence), scale: None, offset: None, units: None }),
            9 => Some(FieldProfile { base: BaseType::Uint16, profile_type: None, scale: None, offset: None, units: None }),
            10 => Some(FieldProfile { base: BaseType::Bool, profile_type: None, scale: None, offset: None, units: None }),
            11 => Some(FieldProfile { base: BaseType::Enum, profile_type: Some(ProfileType::GoalSource), scale: None, offset: None, units: None }),
            _ => None,
        }
    }

    /// The field this value holds.
    pub open spec fn entry(&self) -> FieldEntry {
        match self {
            Goal::MessageIndex(f) => FieldEntry::Known { num: 254, field: f@ },
            Goal::Sport(f) => FieldEntry::Known { num: 0, field: f@ },
            Goal::SubSport(f) => FieldEntry::Known { num: 1, field: f@ },
            Goal::StartDate(f) => FieldEntry::Known { num: 2, field: f@ },
            Goal::EndDate(f) => FieldEntry::Known { num: 3, field: f@ },
            Goal::Type(f) => FieldEntry::Known { num: 4, field: f@ },
            Goal::Value(f) => FieldEntry::Known { num: 5, field: f@ },
            Goal::Repeat(f) => FieldEntry::Known { num: 6, field: f@ },
            Goal::TargetValue(f) => FieldEntry::Known { num: 7, field: f@ },
            Goal::Recurrence(f) => FieldEntry::Known { num: 8, field: f@ },
            Goal::RecurrenceValue(f) => FieldEntry::Known { num: 9, field: f@ },
            Goal::Enabled(f) => FieldEntry::Known { num: 10, field: f@ },
            Goal::Source(f) => FieldEntry::Known { num: 11, field: f@ },
            Goal::Unknown { data, field_def_num } => FieldEntry::Unknown { num: *field_def_num, data: data@ },
        }
    }

    /// Decodes the byte run `buffer` of field `field_def_num` of this message.
    pub fn decode(buffer: &[u8], field_def_num: u8, endian: Endian) -> (r: Result<Self, Error>)
        ensures
            match r {
                Ok(m) => decode_entry(Self::profile(field_def_num), field_def_num, buffer@, endian)
                    == Ok::<FieldEntry, Error>(m.entry()),
                Err(x) => decode_entry(Self::profile(field_def_num), field_def_num, buffer@, endian)
                    == Err::<FieldEntry, Error>(x),
            },
    {
        match field_def_num {
            254 => match decode_field(buffer, endian, FieldProfile { base: BaseType::Uint16, profile_type: Some(ProfileType::MessageIndex), scale: None, offset: None, units: None }) {
                Ok(f) => Ok(Goal::MessageIndex(f)),
                Err(x) => Err(x),
            },
            0 => match decode_field(buffer, endian, FieldProfile { base: BaseType::Enum, profile_type: Some(ProfileType::Sport), scale: None, offset: None, units: None }) {
                Ok(f) => Ok(Goal::Sport(f)),
                Err(x) => Err(x),
            },
            1 => match decode_field(buffer, endian, FieldProfile { base: BaseType::Enum, profile_type: Some(ProfileType::SubSport), scale: None, offset: None, units: None }) {
                Ok(f) => Ok(Goal::SubSport(f)),
                Err(x) => Err(x),
            },
            2 => match decode_field(buffer, endian, FieldProfile { base: BaseType::Uint32, profile_type: Some(ProfileType::DateTime), scale: None, offset: None, units: None }) {
                Ok(f) => Ok(Goal::StartDate(f)),
                Err(x) => Err(x),
            },
            3 => match decode_field(buffer, endian, FieldProfile { base: BaseType::Uint32, profile_type: Some(ProfileType::DateTime), scale: None, offset: None, units: None }) {
                Ok(f) => Ok(Goal::EndDate(f)),
                Err(x) => Err(x),
            },
            4 => match decode_field(buffer, endian, FieldProfile { base: BaseType::Enum, profile_type: Some(ProfileType::Goal), scale: None, offset: None, units: None }) {
                Ok(f) => Ok(Goal::Type(f)),
                Err(x) => Err(x),
            },
            5 => match decode_field(buffer, endian, FieldProfile { base: BaseType::Uint32, profile_type: None, scale: None, offset: None, units: None }) {
                Ok(f) => Ok(Goal::Value(f)),
                Err(x) => Err(x),
            },
            6 => match decode_field(buffer, endian, FieldProfile { base: BaseType::Bool, profile_type: None, scale: None, offset: None, units: None }) {
                Ok(f) => Ok(Goal::Repeat(f)),
                Err(x) => Err(x),
            },
            7 => match decode_field(buffer, endian, FieldProfile { base: BaseType::Uint32, profile_type: None, scale: None, offset: None, units: None }) {
                Ok(f) => Ok(Goal::TargetValue(f)),
                Err(x) => Err(x),
            },
            8 => match decode_field(buffer, endian, FieldProfile { base: BaseType::Enum, profile_type: Some(ProfileType::GoalRecurrence), scale: None, offset: None, units: None }) {
                Ok(f) => Ok(Goal::Recurrence(f)),
                Err(x) => Err(x),
            },
            9 => match decode_field(buffer, endian, FieldProfile { base: BaseType::Uint16, profile_type: None, scale: None, offset: None, units: None }) {
                Ok(f) => Ok(Goal::RecurrenceValue(f)),
                Err(x) => Err(x),
            },
            10 => match decode_field(buffer, endian, FieldProfile { base: BaseType::Bool, profile_type: None, scale: None, offset: None, units: None }) {
                Ok(f) => Ok(Goal::Enabled(f)),
                Err(x) => Err(x),
            },
            11 => match decode_field(buffer, endian, FieldProfile { base: BaseType::Enum, profile_type: Some(ProfileType::GoalSource), scale: None, offset: None, units: None }) {
                Ok(f) => Ok(Goal::Source(f)),
                Err(x) => Err(x),
            },
            _ => Ok(Goal::Unknown { data: slice_to_vec(buffer), field_def_num }),
        }
    }
}

#[derive(Debug, Clone)]
pub enum Activity {
    Timestamp(Field),
    /// Exclude pauses
    TotalTimerTime(Field),
    NumSessions(Field),
    Type(Field),
    Event(Field),
    EventType(Field),
    /// timestamp epoch expressed in local time, used to convert activity timestamps to local time
    LocalTimestamp(Field),
    EventGroup(Field),
    Unknown { data: Vec<u8>, field_def_num: u8 },
}

impl Activity {
    /// The profile entry of each field of this message.
    pub open spec fn profile(field_def_num: u8) -> Option<FieldProfile> {
        match field_def_num {
            253 => Some(FieldProfile { base: BaseType::Uint32, profile_type: Some(ProfileType::DateTime), scale: None, offset: None, units: None }),
            0 => Some(FieldProfile { base: BaseType::Uint32, profile_type: None, scale: Some(Scale { num: 1000, den: 1 }), offset: None, units: Some("s") }),
            1 => Some(FieldProfile { base: BaseType::Uint16, profile_type: None, scale: None, offset: None, units: None }),
            2 => Some(FieldProfile { base: BaseType::Enum, profile_type: Some(ProfileType::Activity), scale: None, offset: None, units: None }),
            3 => Some(FieldProfile { base: BaseType::Enum, profile_type: Some(ProfileType::Event), scale: None, offset: None, units: None }),
            4 => Some(FieldProfile { base: BaseType::Enum, profile_type: Some(ProfileType::EventType), scale: None, offset: None, units: None }),
            5 => Some(FieldProfile { base: BaseType::Uint32, profile_type: Some(ProfileType::LocalDateTime), scale: None, offset: None, units: None }),
            6 => Some(FieldProfile { base: BaseType::Uint8, profile_type: None, scale: None, offset: None, units: None }),
            _ => None,
        }
    }

    /// The field this value holds.
    pub open spec fn entry(&self) -> FieldEntry {
        match self {
            Activity::Timestamp(f) => FieldEntry::Known { num: 253, field: f@ },
            Activity::TotalTimerTime(f) => FieldEntry::Known { num: 0, field: f@ },
            Activity::NumSessions(f) => FieldEntry::Known { num: 1, field: f@ },
            Activity::Type(f) => FieldEntry::Known { num: 2, field: f@ },
            Activity::Event(f) => FieldEntry::Known { num: 3, field: f@ },
            Activity::EventType(f) => FieldEntry::Known { num: 4, field: f@ },
            Activity::LocalTimestamp(f) => FieldEntry::Known { num: 5, field: f@ },
            Activity::EventGroup(f) => FieldEntry::Known { num: 6, field: f@ },
            Activity::Unknown { data, field_def_num } => FieldEntry::Unknown { num: *field_def_num, data: data@ },
        }
    }

    /// Decodes the byte run `buffer` of field `field_def_num` of this message.
    pub fn decode(buffer: &[u8], field_def_num: u8, endian: Endian) -> (r: Result<Self, Error>)
        ensures
            match r {
                Ok(m) => decode_entry(Self::profile(field_def_num), field_def_num, buffer@, endian)
                    == Ok::<FieldEntry, Error>(m.entry()),
                Err(x) => decode_entry(Self::profile(field_def_num), field_def_num, buffer@, endian)
                    == Err::<FieldEntry, Error>(x),
            },
    {
        match field_def_num {
            253 => match decode_field(buffer, endian, FieldProfile { base: BaseType::Uint32, profile_type: Some(ProfileType::DateTime), scale: None, offset: None, units: None }) {
                Ok(f) => Ok(Activity::Timestamp(f)),
                Err(x) => Err(x),
            },
            0 => match decode_field(buffer, endian, FieldProfile { base: BaseType::Uint32, profile_type: None, scale: Some(Scale { num: 1000, den: 1 }), offset: None, units: Some("s") }) {
                Ok(f) => Ok(Activity::TotalTimerTime(f)),
                Err(x) => Err(x),
            },
            1 => match decode_field(buffer, endian, FieldProfile { base: BaseType::Uint16, profile_type: None, scale: None, offset: None, units: None }) {
                Ok(f) => Ok(Activity::NumSessions(f)),
                Err(x) => Err(x),
            },
            2 => match decode_field(buffer, endian, FieldProfile { base: BaseType::Enum, profile_type: Some(ProfileType::Activity), scale: None, offset: None, units: None }) {
                Ok(f) => Ok(Activity::Type(f)),
                Err(x) => Err(x),
            },
            3 => match decode_field(buffer, endian, FieldProfile { base: BaseType::Enum, profile_type: Some(ProfileType::Event), scale: None, offset: None, units: None }) {
                Ok(f) => Ok(Activity::Event(f)),
                Err(x) => Err(x),
            },
            4 => match decode_field(buffer, endian, FieldProfile { base: BaseType::Enum, profile_type: Some(ProfileType::EventType), scale: None, offset: None, units: None }) {
                Ok(f) => Ok(Activity::EventType(f)),
                Err(x) => Err(x),
            },
            5 => match decode_field(buffer, endian, FieldProfile { base: BaseType::Uint32, profile_type: Some(ProfileType::LocalDateTime), scale: None, offset: None, units: None }) {
                Ok(f) => Ok(Activity::LocalTimestamp(f)),
                Err(x) => Err(x),
            },
            6 => match decode_field(buffer, endian, FieldProfile { base: BaseType::Uint8, profile_type: None, scale: None, offset: None, units: None }) {
                Ok(f) => Ok(Activity::EventGroup(f)),
                Err(x) => Err(x),
            },
            _ => Ok(Activity::Unknown { data: slice_to_vec(buffer), field_def_num }),
        }
    }
}

#[derive(Debug, Clone)]
pub enum Session {
    /// Selected bit is set for the current session.
    MessageIndex(Field),
    /// Sesson end time.
    Timestamp(Field),
    /// session
    Event(Field),
    /// stop
    EventType(Field),
    StartTime(Field),
    StartPositionLat(Field),
    StartPositionLong(Field),
    Sport(Field),
    SubSport(Field),
    /// Time (includes pauses)
    TotalElapsedTime(Field),
    /// Timer Time (excludes pauses)
    TotalTimerTime(Field),
    TotalDistance(Field),
    TotalCycles(Field),
    TotalCalories(Field),
    TotalFatCalories(Field),
    /// total_distance / total_timer_time
    AvgSpeed(Field),
    MaxSpeed(Field),
    /// average heart rate (excludes pause time)
    AvgHeartRate(Field),
    MaxHeartRate(Field),
    /// total_cycles / total_timer_time if non_zero_avg_cadence otherwise total_cycles / total_elapsed_time
    AvgCadence(Field),
    MaxCadence(Field),
    /// total_power / total_timer_time if non_zero_avg_power otherwise total_power / total_elapsed_time
    AvgPower(Field),
    MaxPower(Field),
    TotalAscent(Field),
    TotalDescent(Field),
    TotalTrainingEffect(Field),
    FirstLapIndex(Field),
    NumLaps(Field),
    EventGroup(Field),
    Trigger(Field),
    NecLat(Field),
    NecLong(Field),
    SwcLat(Field),
    SwcLong(Field),
    NormalizedPower(Field),
    TrainingStressScore(Field),
    IntensityFactor(Field),
    LeftRightBalance(Field),
    AvgStrokeCount(Field),
    AvgStrokeDistance(Field),
    SwimStroke(Field),
    PoolLength(Field),
    ThresholdPower(Field),
    PoolLengthUnit(Field),
    /// # of active lengths of swim pool
    NumActiveLengths(Field),
    TotalWork(Field),
    AvgAltitude(Field),
    MaxAltitude(Field),
    GpsAccuracy(Field),
    AvgGrade(Field),
    AvgPosGrade(Field),
    AvgNegGrade(Field),
    MaxPosGrade(Field),
    MaxNegGrade(Field),
    AvgTemperature(Field),
    MaxTemperature(Field),
    TotalMovingTime(Field),
    AvgPosVerticalSpeed(Field),
    AvgNegVerticalSpeed(Field),
    MaxPosVerticalSpeed(Field),
    MaxNegVerticalSpeed(Field),
    MinHeartRate(Field),
    TimeInHrZone(Field),
    TimeInSpeedZone(Field),
    TimeInCadenceZone(Field),
    TimeInPowerZone(Field),
    AvgLapTime(Field),
    BestLapIndex(Field),
    MinAltitude(Field),
    PlayerScore(Field),
    OpponentScore(Field),
    OpponentName(Field),
    /// stroke_type enum used as the index
    StrokeCount(Field),
    /// zone number used as the index
    ZoneCount(Field),
    MaxBallSpeed(Field),
    AvgBallSpeed(Field),
    AvgVerticalOscillation(Field),
    AvgStanceTimePercent(Field),
    AvgStanceTime(Field),
    /// fractional part of the avg_cadence
    AvgFractionalCadence(Field),
    /// fractional part of the max_cadence
    MaxFractionalCadence(Field),
    /// fractional part of the total_cycles
    TotalFractionalCycles(Field),
    /// Avg saturated and unsaturated hemoglobin
    AvgTotalHemoglobinConc(Field),
    /// Min saturated and unsaturated hemoglobin
    MinTotalHemoglobinConc(Field),
    /// Max saturated and unsaturated hemoglobin
    MaxTotalHemoglobinConc(Field),
    /// Avg percentage of hemoglobin saturated with oxygen
    AvgSaturatedHemoglobinPercent(Field),
    /// Min percentage of hemoglobin saturated with oxygen
    MinSaturatedHemoglobinPercent(Field),
    /// Max percentage of hemoglobin saturated with oxygen
    MaxSaturatedHemoglobinPercent(Field),
    AvgLeftTorqueEffectiveness(Field),
    AvgRightTorqueEffectiveness(Field),
    AvgLeftPedalSmoothness(Field),
    AvgRightPedalSmoothness(Field),
    AvgCombinedPedalSmoothness(Field),
    SportIndex(Field),
    /// Total time spend in the standing position
    TimeStanding(Field),
    /// Number of transitions to the standing state
    StandCount(Field),
    /// Average platform center offset Left
    AvgLeftPco(Field),
    /// Average platform center offset Right
    AvgRightPco(Field),
    /// Average left power phase angles. Indexes defined by power_phase_type.
    AvgLeftPowerPhase(Field),
    /// Average left power phase peak angles. Data raw_value indexes defined by power_phase_type.
    AvgLeftPowerPhasePeak(Field),
    /// Average right power phase angles. Data raw_value indexes defined by power_phase_type.
    AvgRightPowerPhase(Field),
    /// Average right power phase peak angles data raw_value indexes  defined by power_phase_type.
    AvgRightPowerPhasePeak(Field),
    /// Average power by position. Data raw_value indexes defined by rider_position_type.
    AvgPowerPosition(Field),
    /// Maximum power by position. Data raw_value indexes defined by rider_position_type.
    MaxPowerPosition(Field),
    /// Average cadence by position. Data raw_value indexes defined by rider_position_type.
    AvgCadencePosition(Field),
    /// Maximum cadence by position. Data raw_value indexes defined by rider_position_type.
    MaxCadencePosition(Field),
    /// total_distance / total_timer_time
    EnhancedAvgSpeed(Field),
    EnhancedMaxSpeed(Field),
    EnhancedAvgAltitude(Field),
    EnhancedMinAltitude(Field),
    EnhancedMaxAltitude(Field),
    /// lev average motor power during session
    AvgLevMotorPower(Field),
    /// lev maximum motor power during session
    MaxLevMotorPower(Field),
    /// lev battery consumption during session
    LevBatteryConsumption(Field),
    AvgVerticalRatio(Field),
    AvgStanceTimeBalance(Field),
    AvgStepLength(Field),
    TotalAnaerobicTrainingEffect(Field),
    AvgVam(Field),
    Unknown { data: Vec<u8>, field_def_num: u8 },
}

impl Session {
    /// The profile entry of each field of this message.
    pub open spec fn profile(field_def_num: u8) -> Option<FieldProfile> {
        match field_def_num {
            254 => Some(FieldProfile { base: BaseType::Uint16, profile_type: Some(ProfileType::MessageIndex), scale: None, offset: None, units: None }),
            253 => Some(FieldProfile { base: BaseType::Uint32, profile_type: Some(ProfileType::DateTime), scale: None, offset: None, units: Some("s") }),
            0 => Some(FieldProfile { base: BaseType::Enum, profile_type: Some(ProfileType::Event), scale: None, offset: None, units: None }),
            1 => Some(FieldProfile { base: BaseType::Enum, profile_type: Some(ProfileType::EventType), scale: None, offset: None, units: None }),
            2 => Some(FieldProfile { base: BaseType::Uint32, profile_type: Some(ProfileType::DateTime), scale: None, offset: None, units: None }),
            3 => Some(FieldProfile { base: BaseType::Sint32, profile_type: None, scale: None, offset: None, units: Some("semicircles") }),
            4 => Some(FieldProfile { base: BaseType::Sint32, profile_type: None, scale: None, offset: None, units: Some("semicircles") }),
            5 => Some(FieldProfile { base: BaseType::Enum, profile_type: Some(ProfileType::Sport), scale: None, offset: None, units: None }),
            6 => Some(FieldProfile { base: BaseType::Enum, profile_type: Some(ProfileType::SubSport), scale: None, offset: None, units: None }),
            7 => Some(FieldProfile { base: BaseType::Uint32, profile_type: None, scale: Some(Scale { num: 1000, den: 1 }), offset: None, units: Some("s") }),
            8 => Some(FieldProfile { base: BaseType::Uint32, profile_type: None, scale: Some(Scale { num: 1000, den: 1 }), offset: None, units: Some("s") }),
            9 => Some(FieldProfile { base: BaseType::Uint32, profile_type: None, scale: Some(Scale { num: 100, den: 1 }), offset: None, units: Some("m") }),
            10 => Some(FieldProfile { base: BaseType::Uint32, profile_type: None, scale: None, offset: None, units: Some("cycles") }),
            11 => Some(FieldProfile { base: BaseType::Uint16, profile_type: None, scale: None, offset: None, units: Some("kcal") }),
            13 => Some(FieldProfile { base: BaseType::Uint16, profile_type: None, scale: None, offset: None, units: Some("kcal") }),
            14 => Some(FieldProfile { base: BaseType::Uint16, profile_type: None, scale: Some(Scale { num: 1000, den: 1 }), offset: None, units: Some("m/s") }),
            15 => Some(FieldProfile { base: BaseType::Uint16, profile_type: None, scale: Some(Scale { num: 1000, den: 1 }), offset: None, units: Some("m/s") }),
            16 => Some(FieldProfile { base: BaseType::Uint8, profile_type: None, scale: None, offset: None, units: Some("bpm") }),
            17 => Some(FieldProfile { base: BaseType::Uint8, profile_type: None, scale: None, offset: None, units: Some("bpm") }),
            18 => Some(FieldProfile { base: BaseType::Uint8, profile_type: None, scale: None, offset: None, units: Some("rpm") }),
            19 => Some(FieldProfile { base: BaseType::Uint8, profile_type: None, scale: None, offset: None, units: Some("rpm") }),
            20 => Some(FieldProfile { base: BaseType::Uint16, profile_type: None, scale: None, offset: None, units: Some("watts") }),
            21 => Some(FieldProfile { base: BaseType::Uint16, profile_type: None, scale: None, offset: None, units: Some("watts") }),
            22 => Some(FieldProfile { base: BaseType::Uint16, profile_type: None, scale: None, offset: None, units: Some("m") }),
            23 => Some(FieldProfile { base: BaseType::Uint16, profile_type: None, scale: None, offset: None, units: Some("m") }),
            24 => Some(FieldProfile { base: BaseType::Uint8, profile_type: None, scale: Some(Scale { num: 10, den: 1 }), offset: None, units: None }),
            25 => Some(FieldProfile { base: BaseType::Uint16, profile_type: None, scale: None, offset: None, units: None }),
            26 => Some(FieldProfile { base: BaseType::Uint16, profile_type: None, scale: None, offset: None, units: None }),
            27 => Some(FieldProfile { base: BaseType::Uint8, profile_type: None, scale: None, offset: None, units: None }),
            28 => Some(FieldProfile { base: BaseType::Enum, profile_type: Some(ProfileType::SessionTrigger), scale: None, offset: None, units: None }),
            29 => Some(FieldProfile { base: BaseType::Sint32, profile_type: None, scale: None, offset: None, units: Some("semicircles") }),
            30 => Some(FieldProfile { base: BaseType::Sint32, profile_type: None, scale: None, offset: None, units: Some("semicircles") }),
            31 => Some(FieldProfile { base: BaseType::Sint32, profile_type: None, scale: None, offset: None, units: Some("semicircles") }),
            32 => Some(FieldProfile { base: BaseType::Sint32, profile_type: None, scale: None, offset: None, units: Some("semicircles") }),
            34 => Some(FieldProfile { base: BaseType::Uint16, profile_type: None, scale: None, offset: None, units: Some("watts") }),
            35 => Some(FieldProfile { base: BaseType::Uint16, profile_type: None, scale: Some(Scale { num: 10, den: 1 }), offset: None, units: Some("tss") }),
            36 => Some(FieldProfile { base: BaseType::Uint16, profile_type: None, scale: Some(Scale { num: 1000, den: 1 }), offset: None, units: Some("if") }),
            37 => Some(FieldProfile { base: BaseType::Uint16, profile_type: Some(ProfileType::LeftRightBalance100), scale: None, offset: None, units: None }),
            41 => Some(FieldProfile { base: BaseType::Uint32, profile_type: None, scale: Some(Scale { num: 10, den: 1 }), offset: None, units: Some("strokes/lap") }),
            42 => Some(FieldProfile { base: BaseType::Uint16, profile_type: None, scale: Some(Scale { num: 100, den: 1 }), offset: None, units: Some("m") }),
            43 => Some(FieldProfile { base: BaseType::Enum, profile_type: Some(ProfileType::SwimStroke), scale: None, offset: None, units: Some("swim_stroke") }),
            44 => Some(FieldProfile { base: BaseType::Uint16, profile_type: None, scale: Some(Scale { num: 100, den: 1 }), offset: None, units: Some("m") }),
            45 => Some(FieldProfile { base: BaseType::Uint16, profile_type: None, scale: None, offset: None, units: Some("watts") }),
            46 => Some(FieldProfile { base: BaseType::Enum, profile_type: Some(ProfileType::DisplayMeasure), scale: None, offset: None, units: None }),
            47 => Some(FieldProfile { base: BaseType::Uint16, profile_type: None, scale: None, offset: None, units: Some("lengths") }),
            48 => Some(FieldProfile { base: BaseType::Uint32, profile_type: None, scale: None, offset: None, units: Some("J") }),
            49 => Some(FieldProfile { base: BaseType::Uint16, profile_type: None, scale: Some(Scale { num: 5, den: 1 }), offset: Some(500), units: Some("m") }),
            50 => Some(FieldProfile { base: BaseType::Uint16, profile_type: None, scale: Some(Scale { num: 5, den: 1 }), offset: Some(500), units: Some("m") }),
            51 => Some(FieldProfile { base: BaseType::Uint8, profile_type: None, scale: None, offset: None, units: Some("m") }),
            52 => Some(FieldProfile { base: BaseType::Sint16, profile_type: None, scale: Some(Scale { num: 100, den: 1 }), offset: None, units: Some("%") }),
            53 => Some(FieldProfile { base: BaseType::Sint16, profile_type: None, scale: Some(Scale { num: 100, den: 1 }), offset: None, units: Some("%") }),
            54 => Some(FieldProfile { base: BaseType::Sint16, profile_type: None, scale: Some(Scale { num: 100, den: 1 }), offset: None, units: Some("%") }),
            55 => Some(FieldProfile { base: BaseType::Sint16, profile_type: None, scale: Some(Scale { num: 100, den: 1 }), offset: None, units: Some("%") }),
            56 => Some(FieldProfile { base: BaseType::Sint16, profile_type: None, scale: Some(Scale { num: 100, den: 1 }), offset: None, units: Some("%") }),
            57 => Some(FieldProfile { base: BaseType::Sint8, profile_type: None, scale: None, offset: None, units: Some("C") }),
            58 => Some(FieldProfile { base: BaseType::Sint8, profile_type: None, scale: None, offset: None, units: Some("C") }),
            59 => Some(FieldProfile { base: BaseType::Uint32, profile_type: None, scale: Some(Scale { num: 1000, den: 1 }), offset: None, units: Some("s") }),
            60 => Some(FieldProfile { base: BaseType::Sint16, profile_type: None, scale: Some(Scale { num: 1000, den: 1 }), offset: None, units: Some("m/s") }),
            61 => Some(FieldProfile { base: BaseType::Sint16, profile_type: None, scale: Some(Scale { num: 1000, den: 1 }), offset: None, units: Some("m/s") }),
            62 => Some(FieldProfile { base: BaseType::Sint16, profile_type: None, scale: Some(Scale { num: 1000, den: 1 }), offset: None, units: Some("m/s") }),
            63 => Some(FieldProfile { base: BaseType::Sint16, profile_type: None, scale: Some(Scale { num: 1000, den: 1 }), offset: None, units: Some("m/s") }),
            64 => Some(FieldProfile { base: BaseType::Uint8, profile_type: None, scale: None, offset: None, units: Some("bpm") }),
            65 => Some(FieldProfile { base: BaseType::Uint32, profile_type: None, scale: Some(Scale { num: 1000, den: 1 }), offset: None, units: Some("s") }),
            66 => Some(FieldProfile { base: BaseType::Uint32, profile_type: None, scale: Some(Scale { num: 1000, den: 1 }), offset: None, units: Some("s") }),
            67 => Some(FieldProfile { base: BaseType::Uint32, profile_type: None, scale: Some(Scale { num: 1000, den: 1 }), offset: None, units: Some("s") }),
            68 => Some(FieldProfile { base: BaseType::Uint32, profile_type: None, scale: Some(Scale { num: 1000, den: 1 }), offset: None, units: Some("s") }),
            69 => Some(FieldProfile { base: BaseType::Uint32, profile_type: None, scale: Some(Scale { num: 1000, den: 1 }), offset: None, units: Some("s") }),
            70 => Some(FieldProfile { base: BaseType::Uint16, profile_type: None, scale: None, offset: None, units: None }),
            71 => Some(FieldProfile { base: BaseType::Uint16, profile_type: None, scale: Some(Scale { num: 5, den: 1 }), offset: Some(500), units: Some("m") }),
            82 => Some(FieldProfile { base: BaseType::Uint16, profile_type: None, scale: None, offset: None, units: None }),
            83 => Some(FieldProfile { base: BaseType::Uint16, profile_type: None, scale: None, offset: None, units: None }),
            84 => Some(FieldProfile { base: BaseType::Utf8String, profile_type: None, scale: None, offset: None, units: None }),
            85 => Some(FieldProfile { base: BaseType::Uint16, profile_type: None, scale: None, offset: None, units: Some("counts") }),
            86 => Some(FieldProfile { base: BaseType::Uint16, profile_type: None, scale: None, offset: None, units: Some("counts") }),
            87 => Some(FieldProfile { base: BaseType::Uint16, profile_type: None, scale: Some(Scale { num: 100, den: 1 }), offset: None, units: Some("m/s") }),
            88 => Some(FieldProfile { base: BaseType::Uint16, profile_type: None, scale: Some(Scale { num: 100, den: 1 }), offset: None, units: Some("m/s") }),
            89 => Some(FieldProfile { base: BaseType::Uint16, profile_type: None, scale: Some(Scale { num: 10, den: 1 }), offset: None, units: Some("mm") }),
            90 => Some(FieldProfile { base: BaseType::Uint16, profile_type: None, scale: Some(Scale { num: 100, den: 1 }), offset: None, units: Some("percent") }),
            91 => Some(FieldProfile { base: BaseType::Uint16, profile_type: None, scale: Some(Scale { num: 10, den: 1 }), offset: None, units: Some("ms") }),
            92 => Some(FieldProfile { base: BaseType::Uint8, profile_type: None, scale: Some(Scale { num: 128, den: 1 }), offset: None, units: Some("rpm") }),
            93 => Some(FieldProfile { base: BaseType::Uint8, profile_type: None, scale: Some(Scale { num: 128, den: 1 }), offset: None, units: Some("rpm") }),
            94 => Some(FieldProfile { base: BaseType::Uint8, profile_type: None, scale: Some(Scale { num: 128, den: 1 }), offset: None, units: Some("cycles") }),
            95 => Some(FieldProfile { base: BaseType::Uint16, profile_type: None, scale: Some(Scale { num: 100, den: 1 }), offset: None, units: Some("g/dL") }),
            96 => Some(FieldProfile { base: BaseType::Uint16, profile_type: None, scale: Some(Scale { num: 100, den: 1 }), offset: None, units: Some("g/dL") }),
            97 => Some(FieldProfile { base: BaseType::Uint16, profile_type: None, scale: Some(Scale { num: 100, den: 1 }), offset: None, units: Some("g/dL") }),
            98 => Some(FieldProfile { base: BaseType::Uint16, profile_type: None, scale: Some(Scale { num: 10, den: 1 }), offset: None, units: Some("%") }),
            99 => Some(FieldProfile { base: BaseType::Uint16, profile_type: None, scale: Some(Scale { num: 10, den: 1 }), offset: None, units: Some("%") }),
            100 => Some(FieldProfile { base: BaseType::Uint16, profile_type: None, scale: Some(Scale { num: 10, den: 1 }), offset: None, units: Some("%") }),
            101 => Some(FieldProfile { base: BaseType::Uint8, profile_type: None, scale: Some(Scale { num: 2, den: 1 }), offset: None, units: Some("percent") }),
            102 => Some(FieldProfile { base: BaseType::Uint8, profile_type: None, scale: Some(Scale { num: 2, den: 1 }), offset: None, units: Some("percent") }),
            103 => Some(FieldProfile { base: BaseType::Uint8, profile_type: None, scale: Some(Scale { num: 2, den: 1 }), offset: None, units: Some("percent") }),
            104 => Some(FieldProfile { base: BaseType::Uint8, profile_type: None, scale: Some(Scale { num: 2, den: 1 }), offset: None, units: Some("percent") }),
            105 => Some(FieldProfile { base: BaseType::Uint8, profile_type: None, scale: Some(Scale { num: 2, den: 1 }), offset: None, units: Some("percent") }),
            111 => Some(FieldProfile { base: BaseType::Uint8, profile_type: None, scale: None, offset: None, units: None }),
            112 => Some(FieldProfile { base: BaseType::Uint32, profile_type: None, scale: Some(Scale { num: 1000, den: 1 }), offset: None, units: Some("s") }),
            113 => Some(FieldProfile { base: BaseType::Uint16, profile_type: None, scale: None, offset: None, units: None }),
            114 => Some(FieldProfile { base: BaseType::Sint8, profile_type: None, scale: None, offset: None, units: Some("mm") }),
            115 => Some(FieldProfile { base: BaseType::Sint8, profile_type: None, scale: None, offset: None, units: Some("mm") }),
            116 => Some(FieldProfile { base: BaseType::Uint8, profile_type: None, scale: Some(Scale { num: 7111111, den: 10000000 }), offset: None, units: Some("degrees") }),
            117 => Some(FieldProfile { base: BaseType::Uint8, profile_type: None, scale: Some(Scale { num: 7111111, den: 10000000 }), offset: None, units: Some("degrees") }),
            118 => Some(FieldProfile { base: BaseType::Uint8, profile_type: None, scale: Some(Scale { num: 7111111, den: 10000000 }), offset: None, units: Some("degrees") }),
            119 => Some(FieldProfile { base: BaseType::Uint8, profile_type: None, scale: Some(Scale { num: 7111111, den: 10000000 }), offset: None, units: Some("degrees") }),
            120 => Some(FieldProfile { base: BaseType::Uint16, profile_type: None, scale: None, offset: None, units: Some("watts") }),
            121 => Some(FieldProfile { base: BaseType::Uint16, profile_type: None, scale: None, offset: None, units: Some("watts") }),
            122 => Some(FieldProfile { base: BaseType::Uint8, profile_type: None, scale: None, offset: None, units: Some("rpm") }),
            123 => Some(FieldProfile { base: BaseType::Uint8, profile_type: None, scale: None, offset: None, units: Some("rpm") }),
            124 => Some(FieldProfile { base: BaseType::Uint32, profile_type: None, scale: Some(Scale { num: 1000, den: 1 }), offset: None, units: Some("m/s") }),
            125 => Some(FieldProfile { base: BaseType::Uint32, profile_type: None, scale: Some(Scale { num: 1000, den: 1 }), offset: None, units: Some("m/s") }),
            126 => Some(FieldProfile { base: BaseType::Uint32, profile_type: None, scale: Some(Scale { num: 5, den: 1 }), offset: Some(500), units: Some("m") }),
            127 => Some(FieldProfile { base: BaseType::Uint32, profile_type: None, scale: Some(Scale { num: 5, den: 1 }), offset: Some(500), units: Some("m") }),
            128 => Some(FieldProfile { base: BaseType::Uint32, profile_type: None, scale: Some(Scale { num: 5, den: 1 }), offset: Some(500), units: Some("m") }),
            129 => Some(FieldProfile { base: BaseType::Uint16, profile_type: None, scale: None, offset: None, units: Some("watts") }),
            130 => Some(FieldProfile { base: BaseType::Uint16, profile_type: None, scale: None, offset: None, units: Some("watts") }),
            131 => Some(FieldProfile { base: BaseType::Uint8, profile_type: None, scale: Some(Scale { num: 2, den: 1 }), offset: None, units: Some("percent") }),
            132 => Some(FieldProfile { base: BaseType::Uint16, profile_type: None, scale: Some(Scale { num: 100, den: 1 }), offset: None, units: Some("percent") }),
            133 => Some(FieldProfile { base: BaseType::Uint16, profile_type: None, scale: Some(Scale { num: 100, den: 1 }), offset: None, units: Some("percent") }),
            134 => Some(FieldProfile { base: BaseType::Uint16, profile_type: None, scale: Some(Scale { num: 10, den: 1 }), offset: None, units: Some("mm") }),
            137 => Some(FieldProfile { base: BaseType::Uint8, profile_type: None, scale: Some(Scale { num: 10, den: 1 }), offset: None, units: None }),
            139 => Some(FieldProfile { base: BaseType::Uint16, profile_type: None, scale: Some(Scale { num: 1000, den: 1 }), offset: None, units: Some("m/s") }),
            _ => None,
        }
    }

    /// The field this value holds.
    pub open spec fn entry(&self) -> FieldEntry {
        match self {
            Session::MessageIndex(f) => FieldEntry::Known { num: 254, field: f@ },
            Session::Timestamp(f) => FieldEntry::Known { num: 253, field: f@ },
            Session::Event(f) => FieldEntry::Known { num: 0, field: f@ },
            Session::EventType(f) => FieldEntry::Known { num: 1, field: f@ },
            Session::StartTime(f) => FieldEntry::Known { num: 2, field: f@ },
            Session::StartPositionLat(f) => FieldEntry::Known { num: 3, field: f@ },
            Session::StartPositionLong(f) => FieldEntry::Known { num: 4, field: f@ },
            Session::Sport(f) => FieldEntry::Known { num: 5, field: f@ },
            Session::SubSport(f) => FieldEntry::Known { num: 6, field: f@ },
            Session::TotalElapsedTime(f) => FieldEntry::Known { num: 7, field: f@ },
            Session::TotalTimerTime(f) => FieldEntry::Known { num: 8, field: f@ },
            Session::TotalDistance(f) => FieldEntry::Known { num: 9, field: f@ },
            Session::TotalCycles(f) => FieldEntry::Known { num: 10, field: f@ },
            Session::TotalCalories(f) => FieldEntry::Known { num: 11, field: f@ },
            Session::TotalFatCalories(f) => FieldEntry::Known { num: 13, field: f@ },
            Session::AvgSpeed(f) => FieldEntry::Known { num: 14, field: f@ },
            Session::MaxSpeed(f) => FieldEntry::Known { num: 15, field: f@ },
            Session::AvgHeartRate(f) => FieldEntry::Known { num: 16, field: f@ },
            Session::MaxHeartRate(f) => FieldEntry::Known { num: 17, field: f@ },
            Session::AvgCadence(f) => FieldEntry::Known { num: 18, field: f@ },
            Session::MaxCadence(f) => FieldEntry::Known { num: 19, field: f@ },
            Session::AvgPower(f) => FieldEntry::Known { num: 20, field: f@ },
            Session::MaxPower(f) => FieldEntry::Known { num: 21, field: f@ },
            Session::TotalAscent(f) => FieldEntry::Known { num: 22, field: f@ },
            Session::TotalDescent(f) => FieldEntry::Known { num: 23, field: f@ },
            Session::TotalTrainingEffect(f) => FieldEntry::Known { num: 24, field: f@ },
            Session::FirstLapIndex(f) => FieldEntry::Known { num: 25, field: f@ },
            Session::NumLaps(f) => FieldEntry::Known { num: 26, field: f@ },
            Session::EventGroup(f) => FieldEntry::Known { num: 27, field: f@ },
            Session::Trigger(f) => FieldEntry::Known { num: 28, field: f@ },
            Session::NecLat(f) => FieldEntry::Known { num: 29, field: f@ },
            Session::NecLong(f) => FieldEntry::Known { num: 30, field: f@ },
            Session::SwcLat(f) => FieldEntry::Known { num: 31, field: f@ },
            Session::SwcLong(f) => FieldEntry::Known { num: 32, field: f@ },
            Session::NormalizedPower(f) => FieldEntry::Known { num: 34, field: f@ },
            Session::TrainingStressScore(f) => FieldEntry::Known { num: 35, field: f@ },
            Session::IntensityFactor(f) => FieldEntry::Known { num: 36, field: f@ },
            Session::LeftRightBalance(f) => FieldEntry::Known { num: 37, field: f@ },
            Session::AvgStrokeCount(f) => FieldEntry::Known { num: 41, field: f@ },
            Session::AvgStrokeDistance(f) => FieldEntry::Known { num: 42, field: f@ },
            Session::SwimStroke(f) => FieldEntry::Known { num: 43, field: f@ },
            Session::PoolLength(f) => FieldEntry::Known { num: 44, field: f@ },
            Session::ThresholdPower(f) => FieldEntry::Known { num: 45, field: f@ },
            Session::PoolLengthUnit(f) => FieldEntry::Known { num: 46, field: f@ },
            Session::NumActiveLengths(f) => FieldEntry::Known { num: 47, field: f@ },
            Session::TotalWork(f) => FieldEntry::Known { num: 48, field: f@ },
            Session::AvgAltitude(f) => FieldEntry::Known { num: 49, field: f@ },
            Session::MaxAltitude(f) => FieldEntry::Known { num: 50, field: f@ },
            Session::GpsAccuracy(f) => FieldEntry::Known { num: 51, field: f@ },
            Session::AvgGrade(f) => FieldEntry::Known { num: 52, field: f@ },
            Session::AvgPosGrade(f) => FieldEntry::Known { num: 53, field: f@ },
            Session::AvgNegGrade(f) => FieldEntry::Known { num: 54, field: f@ },
            Session::MaxPosGrade(f) => FieldEntry::Known { num: 55, field: f@ },
            Session::MaxNegGrade(f) => FieldEntry::Known { num: 56, field: f@ },
            Session::AvgTemperature(f) => FieldEntry::Known { num: 57, field: f@ },
            Session::MaxTemperature(f) => FieldEntry::Known { num: 58, field: f@ },
            Session::TotalMovingTime(f) => FieldEntry::Known { num: 59, field: f@ },
            Session::AvgPosVerticalSpeed(f) => FieldEntry::Known { num: 60, field: f@ },
            Session::AvgNegVerticalSpeed(f) => FieldEntry::Known { num: 61, field: f@ },
            Session::MaxPosVerticalSpeed(f) => FieldEntry::Known { num: 62, field: f@ },
            Session::MaxNegVerticalSpeed(f) => FieldEntry::Known { num: 63, field: f@ },
            Session::MinHeartRate(f) => FieldEntry::Known { num: 64, field: f@ },
            Session::TimeInHrZone(f) => FieldEntry::Known { num: 65, field: f@ },
            Session::TimeInSpeedZone(f) => FieldEntry::Known { num: 66, field: f@ },
            Session::TimeInCadenceZone(f) => FieldEntry::Known { num: 67, field: f@ },
            Session::TimeInPowerZone(f) => FieldEntry::Known { num: 68, field: f@ },
            Session::AvgLapTime(f) => FieldEntry::Known { num: 69, field: f@ },
            Session::BestLapIndex(f) => FieldEntry::Known { num: 70, field: f@ },
            Session::MinAltitude(f) => FieldEntry::Known { num: 71, field: f@ },
            Session::PlayerScore(f) => FieldEntry::Known { num: 82, field: f@ },
            Session::OpponentScore(f) => FieldEntry::Known { num: 83, field: f@ },
            Session::OpponentName(f) => FieldEntry::Known { num: 84, field: f@ },
            Session::StrokeCount(f) => FieldEntry::Known { num: 85, field: f@ },
            Session::ZoneCount(f) => FieldEntry::Known { num: 86, field: f@ },
            Session::MaxBallSpeed(f) => FieldEntry::Known { num: 87, field: f@ },
            Session::AvgBallSpeed(f) => FieldEntry::Known { num: 88, field: f@ },
            Session::AvgVerticalOscillation(f) => FieldEntry::Known { num: 89, field: f@ },
            Session::AvgStanceTimePercent(f) => FieldEntry::Known { num: 90, field: f@ },
            Session::AvgStanceTime(f) => FieldEntry::Known { num: 91, field: f@ },
            Session::AvgFractionalCadence(f) => FieldEntry::Known { num: 92, field: f@ },
            Session::MaxFractionalCadence(f) => FieldEntry::Known { num: 93, field: f@ },
            Session::TotalFractionalCycles(f) => FieldEntry::Known { num: 94, field: f@ },
            Session::AvgTotalHemoglobinConc(f) => FieldEntry::Known { num: 95, field: f@ },
            Session::MinTotalHemoglobinConc(f) => FieldEntry::Known { num: 96, field: f@ },
            Session::MaxTotalHemoglobinConc(f) => FieldEntry::Known { num: 97, field: f@ },
            Session::AvgSaturatedHemoglobinPercent(f) => FieldEntry::Known { num: 98, field: f@ },
            Session::MinSaturatedHemoglobinPercent(f) => FieldEntry::Known { num: 99, field: f@ },
            Session::MaxSaturatedHemoglobinPercent(f) => FieldEntry::Known { num: 100, field: f@ },
            Session::AvgLeftTorqueEffectiveness(f) => FieldEntry::Known { num: 101, field: f@ },
            Session::AvgRightTorqueEffectiveness(f) => FieldEntry::Known { num: 102, field: f@ },
            Session::AvgLeftPedalSmoothness(f) => FieldEntry::Known { num: 103, field: f@ },
            Session::AvgRightPedalSmoothness(f) => FieldEntry::Known { num: 104, field: f@ },
            Session::AvgCombinedPedalSmoothness(f) => FieldEntry::Known { num: 105, field: f@ },
            Session::SportIndex(f) => FieldEntry::Known { num: 111, field: f@ },
            Session::TimeStanding(f) => FieldEntry::Known { num: 112, field: f@ },
            Session::StandCount(f) => FieldEntry::Known { num: 113, field: f@ },
            Session::AvgLeftPco(f) => FieldEntry::Known { num: 114, field: f@ },
            Session::AvgRightPco(f) => FieldEntry::Known { num: 115, field: f@ },
            Session::AvgLeftPowerPhase(f) => FieldEntry::Known { num: 116, field: f@ },
            Session::AvgLeftPowerPhasePeak(f) => FieldEntry::Known { num: 117, field: f@ },
            Session::AvgRightPowerPhase(f) => FieldEntry::Known { num: 118, field: f@ },
            Session::AvgRightPowerPhasePeak(f) => FieldEntry::Known { num: 119, field: f@ },
            Session::AvgPowerPosition(f) => FieldEntry::Known { num: 120, field: f@ },
            Session::MaxPowerPosition(f) => FieldEntry::Known { num: 121, field: f@ },
            Session::AvgCadencePosition(f) => FieldEntry::Known { num: 122, field: f@ },
            Session::MaxCadencePosition(f) => FieldEntry::Known { num: 123, field: f@ },
            Session::EnhancedAvgSpeed(f) => FieldEntry::Known { num: 124, field: f@ },
            Session::EnhancedMaxSpeed(f) => FieldEntry::Known { num: 125, field: f@ },
            Session::EnhancedAvgAltitude(f) => FieldEntry::Known { num: 126, field: f@ },
            Session::EnhancedMinAltitude(f) => FieldEntry::Known { num: 127, field: f@ },
            Session::EnhancedMaxAltitude(f) => FieldEntry::Known { num: 128, field: f@ },
            Session::AvgLevMotorPower(f) => FieldEntry::Known { num: 129, field: f@ },
            Session::MaxLevMotorPower(f) => FieldEntry::Known { num: 130, field: f@ },
            Session::LevBatteryConsumption(f) => FieldEntry::Known { num: 131, field: f@ },
            Session::AvgVerticalRatio(f) => FieldEntry::Known { num: 132, field: f@ },
            Session::AvgStanceTimeBalance(f) => FieldEntry::Known { num: 133, field: f@ },
            Session::AvgStepLength(f) => FieldEntry::Known { num: 134, field: f@ },
            Session::TotalAnaerobicTrainingEffect(f) => FieldEntry::Known { num: 137, field: f@ },
            Session::AvgVam(f) => FieldEntry::Known { num: 139, field: f@ },
            Session::Unknown { data, field_def_num } => FieldEntry::Unknown { num: *field_def_num, data: data@ },
        }
    }

    /// Decodes the byte run `buffer` of field `field_def_num` of this message.
    #[verifier::spinoff_prover]
    #[verifier::rlimit(100)]
    pub fn decode(buffer: &[u8], field_def_num: u8, endian: Endian) -> (r: Result<Self, Error>)
        ensures
            match r {
                Ok(m) => decode_entry(Self::profile(field_def_num), field_def_num, buffer@, endian)
                    == Ok::<FieldEntry, Error>(m.entry()),
                Err(x) => decode_entry(Self::profile(field_def_num), field_def_num, buffer@, endian)
                    == Err::<FieldEntry, Error>(x),
            },
    {
        match field_def_num {
            254 => match decode_field(buffer, endian, FieldProfile { base: BaseType::Uint16, profile_type: Some(ProfileType::MessageIndex), scale: None, offset: None, units: None }) {
                Ok(f) => Ok(Session::MessageIndex(f)),
                Err(x) => Err(x),
            },
            253 => match decode_field(buffer, endian, FieldProfile { base: BaseType::Uint32, profile_type: Some(ProfileType::DateTime), scale: None, offset: None, units: Some("s") }) {
                Ok(f) => Ok(Session::Timestamp(f)),
                Err(x) => Err(x),
            },
            0 => match decode_field(buffer, endian, FieldProfile { base: BaseType::Enum, profile_type: Some(ProfileType::Event), scale: None, offset: None, units: None }) {
                Ok(f) => Ok(Session::Event(f)),
                Err(x) => Err(x),
            },
            1 => match decode_field(buffer, endian, FieldProfile { base: BaseType::Enum, profile_type: Some(ProfileType::EventType), scale: None, offset: None, units: None }) {
                Ok(f) => Ok(Session::EventType(f)),
                Err(x) => Err(x),
            },
            2 => match decode_field(buffer, endian, FieldProfile { base: BaseType::Uint32, profile_type: Some(ProfileType::DateTime), scale: None, offset: None, units: None }) {
                Ok(f) => Ok(Session::StartTime(f)),
                Err(x) => Err(x),
            },
            3 => match decode_field(buffer, endian, FieldProfile { base: BaseType::Sint32, profile_type: None, scale: None, offset: None, units: Some("semicircles") }) {
                Ok(f) => Ok(Session::StartPositionLat(f)),
                Err(x) => Err(x),
            },
            4 => match decode_field(buffer, endian, FieldProfile { base: BaseType::Sint32, profile_type: None, scale: None, offset: None, units: Some("semicircles") }) {
                Ok(f) => Ok(Session::StartPositionLong(f)),
                Err(x) => Err(x),
            },
            5 => match decode_field(buffer, endian, FieldProfile { base: BaseType::Enum, profile_type: Some(ProfileType::Sport), scale: None, offset: None, units: None }) {
                Ok(f) => Ok(Session::Sport(f)),
                Err(x) => Err(x),
            },
            6 => match decode_field(buffer, endian, FieldProfile { base: BaseType::Enum, profile_type: Some(ProfileType::SubSport), scale: None, offset: None, units: None }) {
                Ok(f) => Ok(Session::SubSport(f)),
                Err(x) => Err(x),
            },
            7 => match decode_field(buffer, endian, FieldProfile { base: BaseType::Uint32, profile_type: None, scale: Some(Scale { num: 1000, den: 1 }), offset: None, units: Some("s") }) {
                Ok(f) => Ok(Session::TotalElapsedTime(f)),
                Err(x) => Err(x),
            },
            8 => match decode_field(buffer, endian, FieldProfile { base: BaseType::Uint32, profile_type: None, scale: Some(Scale { num: 1000, den: 1 }), offset: None, units: Some("s") }) {
                Ok(f) => Ok(Session::TotalTimerTime(f)),
                Err(x) => Err(x),
            },
            9 => match decode_field(buffer, endian, FieldProfile { base: BaseType::Uint32, profile_type: None, scale: Some(Scale { num: 100, den: 1 }), offset: None, units: Some("m") }) {
                Ok(f) => Ok(Session::TotalDistance(f)),
                Err(x) => Err(x),
            },
            10 => match decode_field(buffer, endian, FieldProfile { base: BaseType::Uint32, profile_type: None, scale: None, offset: None, units: Some("cycles") }) {
                Ok(f) => Ok(Session::TotalCycles(f)),
                Err(x) => Err(x),
            },
            11 => match decode_field(buffer, endian, FieldProfile { base: BaseType::Uint16, profile_type: None, scale: None, offset: None, units: Some("kcal") }) {
                Ok(f) => Ok(Session::TotalCalories(f)),
                Err(x) => Err(x),
            },
            13 => match decode_field(buffer, endian, FieldProfile { base: BaseType::Uint16, profile_type: None, scale: None, offset: None, units: Some("kcal") }) {
                Ok(f) => Ok(Session::TotalFatCalories(f)),
                Err(x) => Err(x),
            },
            14 => match decode_field(buffer, endian, FieldProfile { base: BaseType::Uint16, profile_type: None, scale: Some(Scale { num: 1000, den: 1 }), offset: None, units: Some("m/s") }) {
                Ok(f) => Ok(Session::AvgSpeed(f)),
                Err(x) => Err(x),
            },
            15 => match decode_field(buffer, endian, FieldProfile { base: BaseType::Uint16, profile_type: None, scale: Some(Scale { num: 1000, den: 1 }), offset: None, units: Some("m/s") }) {
                Ok(f) => Ok(Session::MaxSpeed(f)),
                Err(x) => Err(x),
            },
            16 => match decode_field(buffer, endian, FieldProfile { base: BaseType::Uint8, profile_type: None, scale: None, offset: None, units: Some("bpm") }) {
                Ok(f) => Ok(Session::AvgHeartRate(f)),
                Err(x) => Err(x),
            },
            17 => match decode_field(buffer, endian, FieldProfile { base: BaseType::Uint8, profile_type: None, scale: None, offset: None, units: Some("bpm") }) {
                Ok(f) => Ok(Session::MaxHeartRate(f)),
                Err(x) => Err(x),
            },
            18 => match decode_field(buffer, endian, FieldProfile { base: BaseType::Uint8, profile_type: None, scale: None, offset: None, units: Some("rpm") }) {
                Ok(f) => Ok(Session::AvgCadence(f)),
                Err(x) => Err(x),
            },
            19 => match decode_field(buffer, endian, FieldProfile { base: BaseType::Uint8, profile_type: None, scale: None, offset: None, units: Some("rpm") }) {
                Ok(f) => Ok(Session::MaxCadence(f)),
                Err(x) => Err(x),
            },
            20 => match decode_field(buffer, endian, FieldProfile { base: BaseType::Uint16, profile_type: None, scale: None, offset: None, units: Some("watts") }) {
                Ok(f) => Ok(Session::AvgPower(f)),
                Err(x) => Err(x),
            },
            21 => match decode_field(buffer, endian, FieldProfile { base: BaseType::Uint16, profile_type: None, scale: None, offset: None, units: Some("watts") }) {
                Ok(f) => Ok(Session::MaxPower(f)),
                Err(x) => Err(x),
            },
            22 => match decode_field(buffer, endian, FieldProfile { base: BaseType::Uint16, profile_type: None, scale: None, offset: None, units: Some("m") }) {
                Ok(f) => Ok(Session::TotalAscent(f)),
                Err(x) => Err(x),
            },
            23 => match decode_field(buffer, endian, FieldProfile { base: BaseType::Uint16, profile_type: None, scale: None, offset: None, units: Some("m") }) {
                Ok(f) => Ok(Session::TotalDescent(f)),
                Err(x) => Err(x),
            },
            24 => match decode_field(buffer, endian, FieldProfile { base: BaseType::Uint8, profile_type: None, scale: Some(Scale { num: 10, den: 1 }), offset: None, units: None }) {
                Ok(f) => Ok(Session::TotalTrainingEffect(f)),
                Err(x) => Err(x),
            },
            25 => match decode_field(buffer, endian, FieldProfile { base: BaseType::Uint16, profile_type: None, scale: None, offset: None, units: None }) {
                Ok(f) => Ok(Session::FirstLapIndex(f)),
                Err(x) => Err(x),
            },
            26 => match decode_field(buffer, endian, FieldProfile { base: BaseType::Uint16, profile_type: None, scale: None, offset: None, units: None }) {
                Ok(f) => Ok(Session::NumLaps(f)),
                Err(x) => Err(x),
            },
            27 => match decode_field(buffer, endian, FieldProfile { base: BaseType::Uint8, profile_type: None, scale: None, offset: None, units: None }) {
                Ok(f) => Ok(Session::EventGroup(f)),
                Err(x) => Err(x),
            },
            28 => match decode_field(buffer, endian, FieldProfile { base: BaseType::Enum, profile_type: Some(ProfileType::SessionTrigger), scale: None, offset: None, units: None }) {
                Ok(f) => Ok(Session::Trigger(f)),
                Err(x) => Err(x),
            },
            29 => match decode_field(buffer, endian, FieldProfile { base: BaseType::Sint32, profile_type: None, scale: None, offset: None, units: Some("semicircles") }) {
                Ok(f) => Ok(Session::NecLat(f)),
                Err(x) => Err(x),
            },
            30 => match decode_field(buffer, endian, FieldProfile { base: BaseType::Sint32, profile_type: None, scale: None, offset: None, units: Some("semicircles") }) {
                Ok(f) => Ok(Session::NecLong(f)),
                Err(x) => Err(x),
            },
            31 => match decode_field(buffer, endian, FieldProfile { base: BaseType::Sint32, profile_type: None, scale: None, offset: None, units: Some("semicircles") }) {
                Ok(f) => Ok(Session::SwcLat(f)),
                Err(x) => Err(x),
            },
            32 => match decode_field(buffer, endian, FieldProfile { base: BaseType::Sint32, profile_type: None, scale: None, offset: None, units: Some("semicircles") }) {
                Ok(f) => Ok(Session::SwcLong(f)),
                Err(x) => Err(x),
            },
            34 => match decode_field(buffer, endian, FieldProfile { base: BaseType::Uint16, profile_type: None, scale: None, offset: None, units: Some("watts") }) {
                Ok(f) => Ok(Session::NormalizedPower(f)),
                Err(x) => Err(x),
            },
            35 => match decode_field(buffer, endian, FieldProfile { base: BaseType::Uint16, profile_type: None, scale: Some(Scale { num: 10, den: 1 }), offset: None, units: Some("tss") }) {
                Ok(f) => Ok(Session::TrainingStressScore(f)),
                Err(x) => Err(x),
            },
            36 => match decode_field(buffer, endian, FieldProfile { base: BaseType::Uint16, profile_type: None, scale: Some(Scale { num: 1000, den: 1 }), offset: None, units: Some("if") }) {
                Ok(f) => Ok(Session::IntensityFactor(f)),
                Err(x) => Err(x),
            },
            37 => match decode_field(buffer, endian, FieldProfile { base: BaseType::Uint16, profile_type: Some(ProfileType::LeftRightBalance100), scale: None, offset: None, units: None }) {
                Ok(f) => Ok(Session::LeftRightBalance(f)),
                Err(x) => Err(x),
            },
            41 => match decode_field(buffer, endian, FieldProfile { base: BaseType::Uint32, profile_type: None, scale: Some(Scale { num: 10, den: 1 }), offset: None, units: Some("strokes/lap") }) {
                Ok(f) => Ok(Session::AvgStrokeCount(f)),
                Err(x) => Err(x),
            },
            42 => match decode_field(buffer, endian, FieldProfile { base: BaseType::Uint16, profile_type: None, scale: Some(Scale { num: 100, den: 1 }), offset: None, units: Some("m") }) {
                Ok(f) => Ok(Session::AvgStrokeDistance(f)),
                Err(x) => Err(x),
            },
            43 => match decode_field(buffer, endian, FieldProfile { base: BaseType::Enum, profile_type: Some(ProfileType::SwimStroke), scale: None, offset: None, units: Some("swim_stroke") }) {
                Ok(f) => Ok(Session::SwimStroke(f)),
                Err(x) => Err(x),
            },
            44 => match decode_field(buffer, endian, FieldProfile { base: BaseType::Uint16, profile_type: None, scale: Some(Scale { num: 100, den: 1 }), offset: None, units: Some("m") }) {
                Ok(f) => Ok(Session::PoolLength(f)),
                Err(x) => Err(x),
            },
            45 => match decode_field(buffer, endian, FieldProfile { base: BaseType::Uint16, profile_type: None, scale: None, offset: None, units: Some("watts") }) {
                Ok(f) => Ok(Session::ThresholdPower(f)),
                Err(x) => Err(x),
            },
            46 => match decode_field(buffer, endian, FieldProfile { base: BaseType::Enum, profile_type: Some(ProfileType::DisplayMeasure), scale: None, offset: None, units: None }) {
                Ok(f) => Ok(Session::PoolLengthUnit(f)),
                Err(x) => Err(x),
            },
            47 => match decode_field(buffer, endian, FieldProfile { base: BaseType::Uint16, profile_type: None, scale: None, offset: None, units: Some("lengths") }) {
                Ok(f) => Ok(Session::NumActiveLengths(f)),
                Err(x) => Err(x),
            },
            48 => match decode_field(buffer, endian, FieldProfile { base: BaseType::Uint32, profile_type: None, scale: None, offset: None, units: Some("J") }) {
                Ok(f) => Ok(Session::TotalWork(f)),
                Err(x) => Err(x),
            },
            49 => match decode_field(buffer, endian, FieldProfile { base: BaseType::Uint16, profile_type: None, scale: Some(Scale { num: 5, den: 1 }), offset: Some(500), units: Some("m") }) {
                Ok(f) => Ok(Session::AvgAltitude(f)),
                Err(x) => Err(x),
            },
            50 => match decode_field(buffer, endian, FieldProfile { base: BaseType::Uint16, profile_type: None, scale: Some(Scale { num: 5, den: 1 }), offset: Some(500), units: Some("m") }) {
                Ok(f) => Ok(Session::MaxAltitude(f)),
                Err(x) => Err(x),
            },
            51 => match decode_field(buffer, endian, FieldProfile { base: BaseType::Uint8, profile_type: None, scale: None, offset: None, units: Some("m") }) {
                Ok(f) => Ok(Session::GpsAccuracy(f)),
                Err(x) => Err(x),
            },
            52 => match decode_field(buffer, endian, FieldProfile { base: BaseType::Sint16, profile_type: None, scale: Some(Scale { num: 100, den: 1 }), offset: None, units: Some("%") }) {
                Ok(f) => Ok(Session::AvgGrade(f)),
                Err(x) => Err(x),
            },
            53 => match decode_field(buffer, endian, FieldProfile { base: BaseType::Sint16, profile_type: None, scale: Some(Scale { num: 100, den: 1 }), offset: None, units: Some("%") }) {
                Ok(f) => Ok(Session::AvgPosGrade(f)),
                Err(x) => Err(x),
            },
            54 => match decode_field(buffer, endian, FieldProfile { base: BaseType::Sint16, profile_type: None, scale: Some(Scale { num: 100, den: 1 }), offset: None, units: Some("%") }) {
                Ok(f) => Ok(Session::AvgNegGrade(f)),
                Err(x) => Err(x),
            },
            55 => match decode_field(buffer, endian, FieldProfile { base: BaseType::Sint16, profile_type: None, scale: Some(Scale { num: 100, den: 1 }), offset: None, units: Some("%") }) {
                Ok(f) => Ok(Session::MaxPosGrade(f)),
                Err(x) => Err(x),
            },
            56 => match decode_field(buffer, endian, FieldProfile { base: BaseType::Sint16, profile_type: None, scale: Some(Scale { num: 100, den: 1 }), offset: None, units: Some("%") }) {
                Ok(f) => Ok(Session::MaxNegGrade(f)),
                Err(x) => Err(x),
            },
            57 => match decode_field(buffer, endian, FieldProfile { base: BaseType::Sint8, profile_type: None, scale: None, offset: None, units: Some("C") }) {
                Ok(f) => Ok(Session::AvgTemperature(f)),
                Err(x) => Err(x),
            },
            58 => match decode_field(buffer, endian, FieldProfile { base: BaseType::Sint8, profile_type: None, scale: None, offset: None, units: Some("C") }) {
                Ok(f) => Ok(Session::MaxTemperature(f)),
                Err(x) => Err(x),
            },
            59 => match decode_field(buffer, endian, FieldProfile { base: BaseType::Uint32, profile_type: None, scale: Some(Scale { num: 1000, den: 1 }), offset: None, units: Some("s") }) {
                Ok(f) => Ok(Session::TotalMovingTime(f)),
                Err(x) => Err(x),
            },
            60 => match decode_field(buffer, endian, FieldProfile { base: BaseType::Sint16, profile_type: None, scale: Some(Scale { num: 1000, den: 1 }), offset: None, units: Some("m/s") }) {
                Ok(f) => Ok(Session::AvgPosVerticalSpeed(f)),
                Err(x) => Err(x),
            },
            61 => match decode_field(buffer, endian, FieldProfile { base: BaseType::Sint16, profile_type: None, scale: Some(Scale { num: 1000, den: 1 }), offset: None, units: Some("m/s") }) {
                Ok(f) => Ok(Session::AvgNegVerticalSpeed(f)),
                Err(x) => Err(x),
            },
            62 => match decode_field(buffer, endian, FieldProfile { base: BaseType::Sint16, profile_type: None, scale: Some(Scale { num: 1000, den: 1 }), offset: None, units: Some("m/s") }) {
                Ok(f) => Ok(Session::MaxPosVerticalSpeed(f)),
                Err(x) => Err(x),
            },
            63 => match decode_field(buffer, endian, FieldProfile { base: BaseType::Sint16, profile_type: None, scale: Some(Scale { num: 1000, den: 1 }), offset: None, units: Some("m/s") }) {
                Ok(f) => Ok(Session::MaxNegVerticalSpeed(f)),
                Err(x) => Err(x),
            },
            64 => match decode_field(buffer, endian, FieldProfile { base: BaseType::Uint8, profile_type: None, scale: None, offset: None, units: Some("bpm") }) {
                Ok(f) => Ok(Session::MinHeartRate(f)),
                Err(x) => Err(x),
            },
            65 => match decode_field(buffer, endian, FieldProfile { base: BaseType::Uint32, profile_type: None, scale: Some(Scale { num: 1000, den: 1 }), offset: None, units: Some("s") }) {
                Ok(f) => Ok(Session::TimeInHrZone(f)),
                Err(x) => Err(x),
            },
            66 => match decode_field(buffer, endian, FieldProfile { base: BaseType::Uint32, profile_type: None, scale: Some(Scale { num: 1000, den: 1 }), offset: None, units: Some("s") }) {
                Ok(f) => Ok(Session::TimeInSpeedZone(f)),
                Err(x) => Err(x),
            },
            67 => match decode_field(buffer, endian, FieldProfile { base: BaseType::Uint32, profile_type: None, scale: Some(Scale { num: 1000, den: 1 }), offset: None, units: Some("s") }) {
                Ok(f) => Ok(Session::TimeInCadenceZone(f)),
                Err(x) => Err(x),
            },
            68 => match decode_field(buffer, endian, FieldProfile { base: BaseType::Uint32, profile_type: None, scale: Some(Scale { num: 1000, den: 1 }), offset: None, units: Some("s") }) {
                Ok(f) => Ok(Session::TimeInPowerZone(f)),
                Err(x) => Err(x),
            },
            69 => match decode_field(buffer, endian, FieldProfile { base: BaseType::Uint32, profile_type: None, scale: Some(Scale { num: 1000, den: 1 }), offset: None, units: Some("s") }) {
                Ok(f) => Ok(Session::AvgLapTime(f)),
                Err(x) => Err(x),
            },
            70 => match decode_field(buffer, endian, FieldProfile { base: BaseType::Uint16, profile_type: None, scale: None, offset: None, units: None }) {
                Ok(f) => Ok(Session::BestLapIndex(f)),
                Err(x) => Err(x),
            },
            71 => match decode_field(buffer, endian, FieldProfile { base: BaseType::Uint16, profile_type: None, scale: Some(Scale { num: 5, den: 1 }), offset: Some(500), units: Some("m") }) {
                Ok(f) => Ok(Session::MinAltitude(f)),
                Err(x) => Err(x),
            },
            82 => match decode_field(buffer, endian, FieldProfile { base: BaseType::Uint16, profile_type: None, scale: None, offset: None, units: None }) {
                Ok(f) => Ok(Session::PlayerScore(f)),
                Err(x) => Err(x),
            },
            83 => match decode_field(buffer, endian, FieldProfile { base: BaseType::Uint16, profile_type: None, scale: None, offset: None, units: None }) {
                Ok(f) => Ok(Session::OpponentScore(f)),
                Err(x) => Err(x),
            },
            84 => match decode_field(buffer, endian, FieldProfile { base: BaseType::Utf8String, profile_type: None, scale: None, offset: None, units: None }) {
                Ok(f) => Ok(Session::OpponentName(f)),
                Err(x) => Err(x),
            },
            85 => match decode_field(buffer, endian, FieldProfile { base: BaseType::Uint16, profile_type: None, scale: None, offset: None, units: Some("counts") }) {
                Ok(f) => Ok(Session::StrokeCount(f)),
                Err(x) => Err(x),
            },
            86 => match decode_field(buffer, endian, FieldProfile { base: BaseType::Uint16, profile_type: None, scale: None, offset: None, units: Some("counts") }) {
                Ok(f) => Ok(Session::ZoneCount(f)),
                Err(x) => Err(x),
            },
            87 => match decode_field(buffer, endian, FieldProfile { base: BaseType::Uint16, profile_type: None, scale: Some(Scale { num: 100, den: 1 }), offset: None, units: Some("m/s") }) {
                Ok(f) => Ok(Session::MaxBallSpeed(f)),
                Err(x) => Err(x),
            },
            88 => match decode_field(buffer, endian, FieldProfile { base: BaseType::Uint16, profile_type: None, scale: Some(Scale { num: 100, den: 1 }), offset: None, units: Some("m/s") }) {
                Ok(f) => Ok(Session::AvgBallSpeed(f)),
                Err(x) => Err(x),
            },
            89 => match decode_field(buffer, endian, FieldProfile { base: BaseType::Uint16, profile_type: None, scale: Some(Scale { num: 10, den: 1 }), offset: None, units: Some("mm") }) {
                Ok(f) => Ok(Session::AvgVerticalOscillation(f)),
                Err(x) => Err(x),
            },
            90 => match decode_field(buffer, endian, FieldProfile { base: BaseType::Uint16, profile_type: None, scale: Some(Scale { num: 100, den: 1 }), offset: None, units: Some("percent") }) {
                Ok(f) => Ok(Session::AvgStanceTimePercent(f)),
                Err(x) => Err(x),
            },
            91 => match decode_field(buffer, endian, FieldProfile { base: BaseType::Uint16, profile_type: None, scale: Some(Scale { num: 10, den: 1 }), offset: None, units: Some("ms") }) {
                Ok(f) => Ok(Session::AvgStanceTime(f)),
                Err(x) => Err(x),
            },
            92 => match decode_field(buffer, endian, FieldProfile { base: BaseType::Uint8, profile_type: None, scale: Some(Scale { num: 128, den: 1 }), offset: None, units: Some("rpm") }) {
                Ok(f) => Ok(Session::AvgFractionalCadence(f)),
                Err(x) => Err(x),
            },
            93 => match decode_field(buffer, endian, FieldProfile { base: BaseType::Uint8, profile_type: None, scale: Some(Scale { num: 128, den: 1 }), offset: None, units: Some("rpm") }) {
                Ok(f) => Ok(Session::MaxFractionalCadence(f)),
                Err(x) => Err(x),
            },
            94 => match decode_field(buffer, endian, FieldProfile { base: BaseType::Uint8, profile_type: None, scale: Some(Scale { num: 128, den: 1 }), offset: None, units: Some("cycles") }) {
                Ok(f) => Ok(Session::TotalFractionalCycles(f)),
                Err(x) => Err(x),
            },
            95 => match decode_field(buffer, endian, FieldProfile { base: BaseType::Uint16, profile_type: None, scale: Some(Scale { num: 100, den: 1 }), offset: None, units: Some("g/dL") }) {
                Ok(f) => Ok(Session::AvgTotalHemoglobinConc(f)),
                Err(x) => Err(x),
            },
            96 => match decode_field(buffer, endian, FieldProfile { base: BaseType::Uint16, profile_type: None, scale: Some(Scale { num: 100, den: 1 }), offset: None, units: Some("g/dL") }) {
                Ok(f) => Ok(Session::MinTotalHemoglobinConc(f)),
                Err(x) => Err(x),
            },
            97 => match decode_field(buffer, endian, FieldProfile { base: BaseType::Uint16, profile_type: None, scale: Some(Scale { num: 100, den: 1 }), offset: None, units: Some("g/dL") }) {
                Ok(f) => Ok(Session::MaxTotalHemoglobinConc(f)),
                Err(x) => Err(x),
            },
            98 => match decode_field(buffer, endian, FieldProfile { base: BaseType::Uint16, profile_type: None, scale: Some(Scale { num: 10, den: 1 }), offset: None, units: Some("%") }) {
                Ok(f) => Ok(Session::AvgSaturatedHemoglobinPercent(f)),
                Err(x) => Err(x),
            },
            99 => match decode_field(buffer, endian, FieldProfile { base: BaseType::Uint16, profile_type: None, scale: Some(Scale { num: 10, den: 1 }), offset: None, units: Some("%") }) {
                Ok(f) => Ok(Session::MinSaturatedHemoglobinPercent(f)),
                Err(x) => Err(x),
            },
            100 => match decode_field(buffer, endian, FieldProfile { base: BaseType::Uint16, profile_type: None, scale: Some(Scale { num: 10, den: 1 }), offset: None, units: Some("%") }) {
                Ok(f) => Ok(Session::MaxSaturatedHemoglobinPercent(f)),
                Err(x) => Err(x),
            },
            101 => match decode_field(buffer, endian, FieldProfile { base: BaseType::Uint8, profile_type: None, scale: Some(Scale { num: 2, den: 1 }), offset: None, units: Some("percent") }) {
                Ok(f) => Ok(Session::AvgLeftTorqueEffectiveness(f)),
                Err(x) => Err(x),
            },
            102 => match decode_field(buffer, endian, FieldProfile { base: BaseType::Uint8, profile_type: None, scale: Some(Scale { num: 2, den: 1 }), offset: None, units: Some("percent") }) {
                Ok(f) => Ok(Session::AvgRightTorqueEffectiveness(f)),
                Err(x) => Err(x),
            },
            103 => match decode_field(buffer, endian, FieldProfile { base: BaseType::Uint8, profile_type: None, scale: Some(Scale { num: 2, den: 1 }), offset: None, units: Some("percent") }) {
                Ok(f) => Ok(Session::AvgLeftPedalSmoothness(f)),
                Err(x) => Err(x),
            },
            104 => match decode_field(buffer, endian, FieldProfile { base: BaseType::Uint8, profile_type: None, scale: Some(Scale { num: 2, den: 1 }), offset: None, units: Some("percent") }) {
                Ok(f) => Ok(Session::AvgRightPedalSmoothness(f)),
                Err(x) => Err(x),
            },
            105 => match decode_field(buffer, endian, FieldProfile { base: BaseType::Uint8, profile_type: None, scale: Some(Scale { num: 2, den: 1 }), offset: None, units: Some("percent") }) {
                Ok(f) => Ok(Session::AvgCombinedPedalSmoothness(f)),
                Err(x) => Err(x),
            },
            111 => match decode_field(buffer, endian, FieldProfile { base: BaseType::Uint8, profile_type: None, scale: None, offset: None, units: None }) {
                Ok(f) => Ok(Session::SportIndex(f)),
                Err(x) => Err(x),
            },
            112 => match decode_field(buffer, endian, FieldProfile { base: BaseType::Uint32, profile_type: None, scale: Some(Scale { num: 1000, den: 1 }), offset: None, units: Some("s") }) {
                Ok(f) => Ok(Session::TimeStanding(f)),
                Err(x) => Err(x),
            },
            113 => match decode_field(buffer, endian, FieldProfile { base: BaseType::Uint16, profile_type: None, scale: None, offset: None, units: None }) {
                Ok(f) => Ok(Session::StandCount(f)),
                Err(x) => Err(x),
            },
            114 => match decode_field(buffer, endian, FieldProfile { base: BaseType::Sint8, profile_type: None, scale: None, offset: None, units: Some("mm") }) {
                Ok(f) => Ok(Session::AvgLeftPco(f)),
                Err(x) => Err(x),
            },
            115 => match decode_field(buffer, endian, FieldProfile { base: BaseType::Sint8, profile_type: None, scale: None, offset: None, units: Some("mm") }) {
                Ok(f) => Ok(Session::AvgRightPco(f)),
                Err(x) => Err(x),
            },
            116 => match decode_field(buffer, endian, FieldProfile { base: BaseType::Uint8, profile_type: None, scale: Some(Scale { num: 7111111, den: 10000000 }), offset: None, units: Some("degrees") }) {
                Ok(f) => Ok(Session::AvgLeftPowerPhase(f)),
                Err(x) => Err(x),
            },
            117 => match decode_field(buffer, endian, FieldProfile { base: BaseType::Uint8, profile_type: None, scale: Some(Scale { num: 7111111, den: 10000000 }), offset: None, units: Some("degrees") }) {
                Ok(f) => Ok(Session::AvgLeftPowerPhasePeak(f)),
                Err(x) => Err(x),
            },
            118 => match decode_field(buffer, endian, FieldProfile { base: BaseType::Uint8, profile_type: None, scale: Some(Scale { num: 7111111, den: 10000000 }), offset: None, units: Some("degrees") }) {
                Ok(f) => Ok(Session::AvgRightPowerPhase(f)),
                Err(x) => Err(x),
            },
            119 => match decode_field(buffer, endian, FieldProfile { base: BaseType::Uint8, profile_type: None, scale: Some(Scale { num: 7111111, den: 10000000 }), offset: None, units: Some("degrees") }) {
                Ok(f) => Ok(Session::AvgRightPowerPhasePeak(f)),
                Err(x) => Err(x),
            },
            120 => match decode_field(buffer, endian, FieldProfile { base: BaseType::Uint16, profile_type: None, scale: None, offset: None, units: Some("watts") }) {
                Ok(f) => Ok(Session::AvgPowerPosition(f)),
                Err(x) => Err(x),
            },
            121 => match decode_field(buffer, endian, FieldProfile { base: BaseType::Uint16, profile_type: None, scale: None, offset: None, units: Some("watts") }) {
                Ok(f) => Ok(Session::MaxPowerPosition(f)),
                Err(x) => Err(x),
            },
            122 => match decode_field(buffer, endian, FieldProfile { base: BaseType::Uint8, profile_type: None, scale: None, offset: None, units: Some("rpm") }) {
                Ok(f) => Ok(Session::AvgCadencePosition(f)),
                Err(x) => Err(x),
            },
            123 => match decode_field(buffer, endian, FieldProfile { base: BaseType::Uint8, profile_type: None, scale: None, offset: None, units: Some("rpm") }) {
                Ok(f) => Ok(Session::MaxCadencePosition(f)),
                Err(x) => Err(x),
            },
            124 => match decode_field(buffer, endian, FieldProfile { base: BaseType::Uint32, profile_type: None, scale: Some(Scale { num: 1000, den: 1 }), offset: None, units: Some("m/s") }) {
                Ok(f) => Ok(Session::EnhancedAvgSpeed(f)),
                Err(x) => Err(x),
            },
            125 => match decode_field(buffer, endian, FieldProfile { base: BaseType::Uint32, profile_type: None, scale: Some(Scale { num: 1000, den: 1 }), offset: None, units: Some("m/s") }) {
                Ok(f) => Ok(Session::EnhancedMaxSpeed(f)),
                Err(x) => Err(x),
            },
            126 => match decode_field(buffer, endian, FieldProfile { base: BaseType::Uint32, profile_type: None, scale: Some(Scale { num: 5, den: 1 }), offset: Some(500), units: Some("m") }) {
                Ok(f) => Ok(Session::EnhancedAvgAltitude(f)),
                Err(x) => Err(x),
            },
            127 => match decode_field(buffer, endian, FieldProfile { base: BaseType::Uint32, profile_type: None, scale: Some(Scale { num: 5, den: 1 }), offset: Some(500), units: Some("m") }) {
                Ok(f) => Ok(Session::EnhancedMinAltitude(f)),
                Err(x) => Err(x),
            },
            128 => match decode_field(buffer, endian, FieldProfile { base: BaseType::Uint32, profile_type: None, scale: Some(Scale { num: 5, den: 1 }), offset: Some(500), units: Some("m") }) {
                Ok(f) => Ok(Session::EnhancedMaxAltitude(f)),
                Err(x) => Err(x),
            },
            129 => match decode_field(buffer, endian, FieldProfile { base: BaseType::Uint16, profile_type: None, scale: None, offset: None, units: Some("watts") }) {
                Ok(f) => Ok(Session::AvgLevMotorPower(f)),
                Err(x) => Err(x),
            },
            130 => match decode_field(buffer, endian, FieldProfile { base: BaseType::Uint16, profile_type: None, scale: None, offset: None, units: Some("watts") }) {
                Ok(f) => Ok(Session::MaxLevMotorPower(f)),
                Err(x) => Err(x),
            },
            131 => match decode_field(buffer, endian, FieldProfile { base: BaseType::Uint8, profile_type: None, scale: Some(Scale { num: 2, den: 1 }), offset: None, units: Some("percent") }) {
                Ok(f) => Ok(Session::LevBatteryConsumption(f)),
                Err(x) => Err(x),
            },
            132 => match decode_field(buffer, endian, FieldProfile { base: BaseType::Uint16, profile_type: None, scale: Some(Scale { num: 100, den: 1 }), offset: None, units: Some("percent") }) {
                Ok(f) => Ok(Session::AvgVerticalRatio(f)),
                Err(x) => Err(x),
            },
            133 => match decode_field(buffer, endian, FieldProfile { base: BaseType::Uint16, profile_type: None, scale: Some(Scale { num: 100, den: 1 }), offset: None, units: Some("percent") }) {
                Ok(f) => Ok(Session::AvgStanceTimeBalance(f)),
                Err(x) => Err(x),
            },
            134 => match decode_field(buffer, endian, FieldProfile { base: BaseType::Uint16, profile_type: None, scale: Some(Scale { num: 10, den: 1 }), offset: None, units: Some("mm") }) {
                Ok(f) => Ok(Session::AvgStepLength(f)),
                Err(x) => Err(x),
            },
            137 => match decode_field(buffer, endian, FieldProfile { base: BaseType::Uint8, profile_type: None, scale: Some(Scale { num: 10, den: 1 }), offset: None, units: None }) {
                Ok(f) => Ok(Session::TotalAnaerobicTrainingEffect(f)),
                Err(x) => Err(x),
            },
            139 => match decode_field(buffer, endian, FieldProfile { base: BaseType::Uint16, profile_type: None, scale: Some(Scale { num: 1000, den: 1 }), offset: None, units: Some("m/s") }) {
                Ok(f) => Ok(Session::AvgVam(f)),
                Err(x) => Err(x),
            },
            _ => Ok(Session::Unknown { data: slice_to_vec(buffer), field_def_num }),
        }
    }
}

#[derive(Debug, Clone)]
pub enum Lap {
    MessageIndex(Field),
    /// Lap end time.
    Timestamp(Field),
    Event(Field),
    EventType(Field),
    StartTime(Field),
    StartPositionLat(Field),
    StartPositionLong(Field),
    EndPositionLat(Field),
    EndPositionLong(Field),
    /// Time (includes pauses)
    TotalElapsedTime(Field),
    /// Timer Time (excludes pauses)
    TotalTimerTime(Field),
    TotalDistance(Field),
    TotalCycles(Field),
    TotalCalories(Field),
    /// If New Leaf
    TotalFatCalories(Field),
    AvgSpeed(Field),
    MaxSpeed(Field),
    AvgHeartRate(Field),
    MaxHeartRate(Field),
    /// total_cycles / total_timer_time if non_zero_avg_cadence otherwise total_cycles / total_elapsed_time
    AvgCadence(Field),
    MaxCadence(Field),
    /// total_power / total_timer_time if non_zero_avg_power otherwise total_power / total_elapsed_time
    AvgPower(Field),
    MaxPower(Field),
    TotalAscent(Field),
    TotalDescent(Field),
    Intensity(Field),
    LapTrigger(Field),
    Sport(Field),
    EventGroup(Field),
    /// # of lengths of swim pool
    NumLengths(Field),
    NormalizedPower(Field),
    LeftRightBalance(Field),
    FirstLengthIndex(Field),
    AvgStrokeDistance(Field),
    SwimStroke(Field),
    SubSport(Field),
    /// # of active lengths of swim pool
    NumActiveLengths(Field),
    TotalWork(Field),
    AvgAltitude(Field),
    MaxAltitude(Field),
    GpsAccuracy(Field),
    AvgGrade(Field),
    AvgPosGrade(Field),
    AvgNegGrade(Field),
    MaxPosGrade(Field),
    MaxNegGrade(Field),
    AvgTemperature(Field),
    MaxTemperature(Field),
    TotalMovingTime(Field),
    AvgPosVerticalSpeed(Field),
    AvgNegVerticalSpeed(Field),
    MaxPosVerticalSpeed(Field),
    MaxNegVerticalSpeed(Field),
    TimeInHrZone(Field),
    TimeInSpeedZone(Field),
    TimeInCadenceZone(Field),
    TimeInPowerZone(Field),
    RepetitionNum(Field),
    MinAltitude(Field),
    MinHeartRate(Field),
    WktStepIndex(Field),
    OpponentScore(Field),
    /// stroke_type enum used as the index
    StrokeCount(Field),
    /// zone number used as the index
    ZoneCount(Field),
    AvgVerticalOscillation(Field),
    AvgStanceTimePercent(Field),
    AvgStanceTime(Field),
    /// fractional part of the avg_cadence
    AvgFractionalCadence(Field),
    /// fractional part of the max_cadence
    MaxFractionalCadence(Field),
    /// fractional part of the total_cycles
    TotalFractionalCycles(Field),
    PlayerScore(Field),
    /// Avg saturated and unsaturated hemoglobin
    AvgTotalHemoglobinConc(Field),
    /// Min saturated and unsaturated hemoglobin
    MinTotalHemoglobinConc(Field),
    /// Max saturated and unsaturated hemoglobin
    MaxTotalHemoglobinConc(Field),
    /// Avg percentage of hemoglobin saturated with oxygen
    AvgSaturatedHemoglobinPercent(Field),
    /// Min percentage of hemoglobin saturated with oxygen
    MinSaturatedHemoglobinPercent(Field),
    /// Max percentage of hemoglobin saturated with oxygen
    MaxSaturatedHemoglobinPercent(Field),
    AvgLeftTorqueEffectiveness(Field),
    AvgRightTorqueEffectiveness(Field),
    AvgLeftPedalSmoothness(Field),
    AvgRightPedalSmoothness(Field),
    AvgCombinedPedalSmoothness(Field),
    /// Total time spent in the standing position
    TimeStanding(Field),
    /// Number of transitions to the standing state
    StandCount(Field),
    /// Average left platform center offset
    AvgLeftPco(Field),
    /// Average right platform center offset
    AvgRightPco(Field),
    /// Average left power phase angles. Data raw_value indexes defined by power_phase_type.
    AvgLeftPowerPhase(Field),
    /// Average left power phase peak angles. Data raw_value indexes  defined by power_phase_type.
    AvgLeftPowerPhasePeak(Field),
    /// Average right power phase angles. Data raw_value indexes defined by power_phase_type.
    AvgRightPowerPhase(Field),
    /// Average right power phase peak angles. Data raw_value indexes  defined by power_phase_type.
    AvgRightPowerPhasePeak(Field),
    /// Average power by position. Data raw_value indexes defined by rider_position_type.
    AvgPowerPosition(Field),
    /// Maximum power by position. Data raw_value indexes defined by rider_position_type.
    MaxPowerPosition(Field),
    /// Average cadence by position. Data raw_value indexes defined by rider_position_type.
    AvgCadencePosition(Field),
    /// Maximum cadence by position. Data raw_value indexes defined by rider_position_type.
    MaxCadencePosition(Field),
    EnhancedAvgSpeed(Field),
    EnhancedMaxSpeed(Field),
    EnhancedAvgAltitude(Field),
    EnhancedMinAltitude(Field),
    EnhancedMaxAltitude(Field),
    /// lev average motor power during lap
    AvgLevMotorPower(Field),
    /// lev maximum motor power during lap
    MaxLevMotorPower(Field),
    /// lev battery consumption during lap
    LevBatteryConsumption(Field),
    AvgVerticalRatio(Field),
    AvgStanceTimeBalance(Field),
    AvgStepLength(Field),
    AvgVam(Field),
    Unknown { data: Vec<u8>, field_def_num: u8 },
}

impl Lap {
    /// The profile entry of each field of this message.
    pub open spec fn profile(field_def_num: u8) -> Option<FieldProfile> {
        match field_def_num {
            254 => Some(FieldProfile { base: BaseType::Uint16, profile_type: Some(ProfileType::MessageIndex), scale: None, offset: None, units: None }),
            253 => Some(FieldProfile { base: BaseType::Uint32, profile_type: Some(ProfileType::DateTime), scale: None, offset: None, units: Some("s") }),
            0 => Some(FieldProfile { base: BaseType::Enum, profile_type: Some(ProfileType::Event), scale: None, offset: None, units: None }),
            1 => Some(FieldProfile { base: BaseType::Enum, profile_type: Some(ProfileType::EventType), scale: None, offset: None, units: None }),
            2 => Some(FieldProfile { base: BaseType::Uint32, profile_type: Some(ProfileType::DateTime), scale: None, offset: None, units: None }),
            3 => Some(FieldProfile { base: BaseType::Sint32, profile_type: None, scale: None, offset: None, units: Some("semicircles") }),
            4 => Some(FieldProfile { base: BaseType::Sint32, profile_type: None, scale: None, offset: None, units: Some("semicircles") }),
            5 => Some(FieldProfile { base: BaseType::Sint32, profile_type: None, scale: None, offset: None, units: Some("semicircles") }),
            6 => Some(FieldProfile { base: BaseType::Sint32, profile_type: None, scale: None, offset: None, units: Some("semicircles") }),
            7 => Some(FieldProfile { base: BaseType::Uint32, profile_type: None, scale: Some(Scale { num: 1000, den: 1 }), offset: None, units: Some("s") }),
            8 => Some(FieldProfile { base: BaseType::Uint32, profile_type: None, scale: Some(Scale { num: 1000, den: 1 }), offset: None, units: Some("s") }),
            9 => Some(FieldProfile { base: BaseType::Uint32, profile_type: None, scale: Some(Scale { num: 100, den: 1 }), offset: None, units: Some("m") }),
            10 => Some(FieldProfile { base: BaseType::Uint32, profile_type: None, scale: None, offset: None, units: Some("cycles") }),
            11 => Some(FieldProfile { base: BaseType::Uint16, profile_type: None, scale: None, offset: None, units: Some("kcal") }),
            12 => Some(FieldProfile { base: BaseType::Uint16, profile_type: None, scale: None, offset: None, units: Some("kcal") }),
            13 => Some(FieldProfile { base: BaseType::Uint16, profile_type: None, scale: Some(Scale { num: 1000, den: 1 }), offset: None, units: Some("m/s") }),
            14 => Some(FieldProfile { base: BaseType::Uint16, profile_type: None, scale: Some(Scale { num: 1000, den: 1 }), offset: None, units: Some("m/s") }),
            15 => Some(FieldProfile { base: BaseType::Uint8, profile_type: None, scale: None, offset: None, units: Some("bpm") }),
            16 => Some(FieldProfile { base: BaseType::Uint8, profile_type: None, scale: None, offset: None, units: Some("bpm") }),
            17 => Some(FieldProfile { base: BaseType::Uint8, profile_type: None, scale: None, offset: None, units: Some("rpm") }),
            18 => Some(FieldProfile { base: BaseType::Uint8, profile_type: None, scale: None, offset: None, units: Some("rpm") }),
            19 => Some(FieldProfile { base: BaseType::Uint16, profile_type: None, scale: None, offset: None, units: Some("watts") }),
            20 => Some(FieldProfile { base: BaseType::Uint16, profile_type: None, scale: None, offset: None, units: Some("watts") }),
            21 => Some(FieldProfile { base: BaseType::Uint16, profile_type: None, scale: None, offset: None, units: Some("m") }),
            22 => Some(FieldProfile { base: BaseType::Uint16, profile_type: None, scale: None, offset: None, units: Some("m") }),
            23 => Some(FieldProfile { base: BaseType::Enum, profile_type: Some(ProfileType::Intensity), scale: None, offset: None, units: None }),
            24 => Some(FieldProfile { base: BaseType::Enum, profile_type: Some(ProfileType::LapTrigger), scale: None, offset: None, units: None }),
            25 => Some(FieldProfile { base: BaseType::Enum, profile_type: Some(ProfileType::Sport), scale: None, offset: None, units: None }),
            26 => Some(FieldProfile { base: BaseType::Uint8, profile_type: None, scale: None, offset: None, units: None }),
            32 => Some(FieldProfile { base: BaseType::Uint16, profile_type: None, scale: None, offset: None, units: Some("lengths") }),
            33 => Some(FieldProfile { base: BaseType::Uint16, profile_type: None, scale: None, offset: None, units: Some("watts") }),
            34 => Some(FieldProfile { base: BaseType::Uint16, profile_type: Some(ProfileType::LeftRightBalance100), scale: None, offset: None, units: None }),
            35 => Some(FieldProfile { base: BaseType::Uint16, profile_type: None, scale: None, offset: None, units: None }),
            37 => Some(FieldProfile { base: BaseType::Uint16, profile_type: None, scale: Some(Scale { num: 100, den: 1 }), offset: None, units: Some("m") }),
            38 => Some(FieldProfile { base: BaseType::Enum, profile_type: Some(ProfileType::SwimStroke), scale: None, offset: None, units: None }),
            39 => Some(FieldProfile { base: BaseType::Enum, profile_type: Some(ProfileType::SubSport), scale: None, offset: None, units: None }),
            40 => Some(FieldProfile { base: BaseType::Uint16, profile_type: None, scale: None, offset: None, units: Some("lengths") }),
            41 => Some(FieldProfile { base: BaseType::Uint32, profile_type: None, scale: None, offset: None, units: Some("J") }),
            42 => Some(FieldProfile { base: BaseType::Uint16, profile_type: None, scale: Some(Scale { num: 5, den: 1 }), offset: Some(500), units: Some("m") }),
            43 => Some(FieldProfile { base: BaseType::Uint16, profile_type: None, scale: Some(Scale { num: 5, den: 1 }), offset: Some(500), units: Some("m") }),
            44 => Some(FieldProfile { base: BaseType::Uint8, profile_type: None, scale: None, offset: None, units: Some("m") }),
            45 => Some(FieldProfile { base: BaseType::Sint16, profile_type: None, scale: Some(Scale { num: 100, den: 1 }), offset: None, units: Some("%") }),
            46 => Some(FieldProfile { base: BaseType::Sint16, profile_type: None, scale: Some(Scale { num: 100, den: 1 }), offset: None, units: Some("%") }),
            47 => Some(FieldProfile { base: BaseType::Sint16, profile_type: None, scale: Some(Scale { num: 100, den: 1 }), offset: None, units: Some("%") }),
            48 => Some(FieldProfile { base: BaseType::Sint16, profile_type: None, scale: Some(Scale { num: 100, den: 1 }), offset: None, units: Some("%") }),
            49 => Some(FieldProfile { base: BaseType::Sint16, profile_type: None, scale: Some(Scale { num: 100, den: 1 }), offset: None, units: Some("%") }),
            50 => Some(FieldProfile { base: BaseType::Sint8, profile_type: None, scale: None, offset: None, units: Some("C") }),
            51 => Some(FieldProfile { base: BaseType::Sint8, profile_type: None, scale: None, offset: None, units: Some("C") }),
            52 => Some(FieldProfile { base: BaseType::Uint32, profile_type: None, scale: Some(Scale { num: 1000, den: 1 }), offset: None, units: Some("s") }),
            53 => Some(FieldProfile { base: BaseType::Sint16, profile_type: None, scale: Some(Scale { num: 1000, den: 1 }), offset: None, units: Some("m/s") }),
            54 => Some(FieldProfile { base: BaseType::Sint16, profile_type: None, scale: Some(Scale { num: 1000, den: 1 }), offset: None, units: Some("m/s") }),
            55 => Some(FieldProfile { base: BaseType::Sint16, profile_type: None, scale: Some(Scale { num: 1000, den: 1 }), offset: None, units: Some("m/s") }),
            56 => Some(FieldProfile { base: BaseType::Sint16, profile_type: None, scale: Some(Scale { num: 1000, den: 1 }), offset: None, units: Some("m/s") }),
            57 => Some(FieldProfile { base: BaseType::Uint32, profile_type: None, scale: Some(Scale { num: 1000, den: 1 }), offset: None, units: Some("s") }),
            58 => Some(FieldProfile { base: BaseType::Uint32, profile_type: None, scale: Some(Scale { num: 1000, den: 1 }), offset: None, units: Some("s") }),
            59 => Some(FieldProfile { base: BaseType::Uint32, profile_type: None, scale: Some(Scale { num: 1000, den: 1 }), offset: None, units: Some("s") }),
            60 => Some(FieldProfile { base: BaseType::Uint32, profile_type: None, scale: Some(Scale { num: 1000, den: 1 }), offset: None, units: Some("s") }),
            61 => Some(FieldProfile { base: BaseType::Uint16, profile_type: None, scale: None, offset: None, units: None }),
            62 => Some(FieldProfile { base: BaseType::Uint16, profile_type: None, scale: Some(Scale { num: 5, den: 1 }), offset: Some(500), units: Some("m") }),
            63 => Some(FieldProfile { base: BaseType::Uint8, profile_type: None, scale: None, offset: None, units: Some("bpm") }),
            71 => Some(FieldProfile { base: BaseType::Uint16, profile_type: Some(ProfileType::MessageIndex), scale: None, offset: None, units: None }),
            74 => Some(FieldProfile { base: BaseType::Uint16, profile_type: None, scale: None, offset: None, units: None }),
            75 => Some(FieldProfile { base: BaseType::Uint16, profile_type: None, scale: None, offset: None, units: Some("counts") }),
            76 => Some(FieldProfile { base: BaseType::Uint16, profile_type: None, scale: None, offset: None, units: Some("counts") }),
            77 => Some(FieldProfile { base: BaseType::Uint16, profile_type: None, scale: Some(Scale { num: 10, den: 1 }), offset: None, units: Some("mm") }),
            78 => Some(FieldProfile { base: BaseType::Uint16, profile_type: None, scale: Some(Scale { num: 100, den: 1 }), offset: None, units: Some("percent") }),
            79 => Some(FieldProfile { base: BaseType::Uint16, profile_type: None, scale: Some(Scale { num: 10, den: 1 }), offset: None, units: Some("ms") }),
            80 => Some(FieldProfile { base: BaseType::Uint8, profile_type: None, scale: Some(Scale { num: 128, den: 1 }), offset: None, units: Some("rpm") }),
            81 => Some(FieldProfile { base: BaseType::Uint8, profile_type: None, scale: Some(Scale { num: 128, den: 1 }), offset: None, units: Some("rpm") }),
            82 => Some(FieldProfile { base: BaseType::Uint8, profile_type: None, scale: Some(Scale { num: 128, den: 1 }), offset: None, units: Some("cycles") }),
            83 => Some(FieldProfile { base: BaseType::Uint16, profile_type: None, scale: None, offset: None, units: None }),
            84 => Some(FieldProfile { base: BaseType::Uint16, profile_type: None, scale: Some(Scale { num: 100, den: 1 }), offset: None, units: Some("g/dL") }),
            85 => Some(FieldProfile { base: BaseType::Uint16, profile_type: None, scale: Some(Scale { num: 100, den: 1 }), offset: None, units: Some("g/dL") }),
            86 => Some(FieldProfile { base: BaseType::Uint16, profile_type: None, scale: Some(Scale { num: 100, den: 1 }), offset: None, units: Some("g/dL") }),
            87 => Some(FieldProfile { base: BaseType::Uint16, profile_type: None, scale: Some(Scale { num: 10, den: 1 }), offset: None, units: Some("%") }),
            88 => Some(FieldProfile { base: BaseType::Uint16, profile_type: None, scale: Some(Scale { num: 10, den: 1 }), offset: None, units: Some("%") }),
            89 => Some(FieldProfile { base: BaseType::Uint16, profile_type: None, scale: Some(Scale { num: 10, den: 1 }), offset: None, units: Some("%") }),
            91 => Some(FieldProfile { base: BaseType::Uint8, profile_type: None, scale: Some(Scale { num: 2, den: 1 }), offset: None, units: Some("percent") }),
            92 => Some(FieldProfile { base: BaseType::Uint8, profile_type: None, scale: Some(Scale { num: 2, den: 1 }), offset: None, units: Some("percent") }),
            93 => Some(FieldProfile { base: BaseType::Uint8, profile_type: None, scale: Some(Scale { num: 2, den: 1 }), offset: None, units: Some("percent") }),
            94 => Some(FieldProfile { base: BaseType::Uint8, profile_type: None, scale: Some(Scale { num: 2, den: 1 }), offset: None, units: Some("percent") }),
            95 => Some(FieldProfile { base: BaseType::Uint8, profile_type: None, scale: Some(Scale { num: 2, den: 1 }), offset: None, units: Some("percent") }),
            98 => Some(FieldProfile { base: BaseType::Uint32, profile_type: None, scale: Some(Scale { num: 1000, den: 1 }), offset: None, units: Some("s") }),
            99 => Some(FieldProfile { base: BaseType::Uint16, profile_type: None, scale: None, offset: None, units: None }),
            100 => Some(FieldProfile { base: BaseType::Sint8, profile_type: None, scale: None, offset: None, units: Some("mm") }),
            101 => Some(FieldProfile { base: BaseType::Sint8, profile_type: None, scale: None, offset: None, units: Some("mm") }),
            102 => Some(FieldProfile { base: BaseType::Uint8, profile_type: None, scale: Some(Scale { num: 7111111, den: 10000000 }), offset: None, units: Some("degrees") }),
            103 => Some(FieldProfile { base: BaseType::Uint8, profile_type: None, scale: Some(Scale { num: 7111111, den: 10000000 }), offset: None, units: Some("degrees") }),
            104 => Some(FieldProfile { base: BaseType::Uint8, profile_type: None, scale: Some(Scale { num: 7111111, den: 10000000 }), offset: None, units: Some("degrees") }),
            105 => Some(FieldProfile { base: BaseType::Uint8, profile_type: None, scale: Some(Scale { num: 7111111, den: 10000000 }), offset: None, units: Some("degrees") }),
            106 => Some(FieldProfile { base: BaseType::Uint16, profile_type: None, scale: None, offset: None, units: Some("watts") }),
            107 => Some(FieldProfile { base: BaseType::Uint16, profile_type: None, scale: None, offset: None, units: Some("watts") }),
            108 => Some(FieldProfile { base: BaseType::Uint8, profile_type: None, scale: None, offset: None, units: Some("rpm") }),
            109 => Some(FieldProfile { base: BaseType::Uint8, profile_type: None, scale: None, offset: None, units: Some("rpm") }),
            110 => Some(FieldProfile { base: BaseType::Uint32, profile_type: None, scale: Some(Scale { num: 1000, den: 1 }), offset: None, units: Some("m/s") }),
            111 => Some(FieldProfile { base: BaseType::Uint32, profile_type: None, scale: Some(Scale { num: 1000, den: 1 }), offset: None, units: Some("m/s") }),
            112 => Some(FieldProfile { base: BaseType::Uint32, profile_type: None, scale: Some(Scale { num: 5, den: 1 }), offset: Some(500), units: Some("m") }),
            113 => Some(FieldProfile { base: BaseType::Uint32, profile_type: None, scale: Some(Scale { num: 5, den: 1 }), offset: Some(500), units: Some("m") }),
            114 => Some(FieldProfile { base: BaseType::Uint32, profile_type: None, scale: Some(Scale { num: 5, den: 1 }), offset: Some(500), units: Some("m") }),
            115 => Some(FieldProfile { base: BaseType::Uint16, profile_type: None, scale: None, offset: None, units: Some("watts") }),
            116 => Some(FieldProfile { base: BaseType::Uint16, profile_type: None, scale: None, offset: None, units: Some("watts") }),
            117 => Some(FieldProfile { base: BaseType::Uint8, profile_type: None, scale: Some(Scale { num: 2, den: 1 }), offset: None, units: Some("percent") }),
            118 => Some(FieldProfile { base: BaseType::Uint16, profile_type: None, scale: Some(Scale { num: 100, den: 1 }), offset: None, units: Some("percent") }),
            119 => Some(FieldProfile { base: BaseType::Uint16, profile_type: None, scale: Some(Scale { num: 100, den: 1 }), offset: None, units: Some("percent") }),
            120 => Some(FieldProfile { base: BaseType::Uint16, profile_type: None, scale: Some(Scale { num: 10, den: 1 }), offset: None, units: Some("mm") }),
            121 => Some(FieldProfile { base: BaseType::Uint16, profile_type: None, scale: Some(Scale { num: 1000, den: 1 }), offset: None, units: Some("m/s") }),
            _ => None,
        }
    }

    /// The field this value holds.
    pub open spec fn entry(&self) -> FieldEntry {
        match self {
            Lap::MessageIndex(f) => FieldEntry::Known { num: 254, field: f@ },
            Lap::Timestamp(f) => FieldEntry::Known { num: 253, field: f@ },
            Lap::Event(f) => FieldEntry::Known { num: 0, field: f@ },
            Lap::EventType(f) => FieldEntry::Known { num: 1, field: f@ },
            Lap::StartTime(f) => FieldEntry::Known { num: 2, field: f@ },
            Lap::StartPositionLat(f) => FieldEntry::Known { num: 3, field: f@ },
            Lap::StartPositionLong(f) => FieldEntry::Known { num: 4, field: f@ },
            Lap::EndPositionLat(f) => FieldEntry::Known { num: 5, field: f@ },
            Lap::EndPositionLong(f) => FieldEntry::Known { num: 6, field: f@ },
            Lap::TotalElapsedTime(f) => FieldEntry::Known { num: 7, field: f@ },
            Lap::TotalTimerTime(f) => FieldEntry::Known { num: 8, field: f@ },
            Lap::TotalDistance(f) => FieldEntry::Known { num: 9, field: f@ },
            Lap::TotalCycles(f) => FieldEntry::Known { num: 10, field: f@ },
            Lap::TotalCalories(f) => FieldEntry::Known { num: 11, field: f@ },
            Lap::TotalFatCalories(f) => FieldEntry::Known { num: 12, field: f@ },
            Lap::AvgSpeed(f) => FieldEntry::Known { num: 13, field: f@ },
            Lap::MaxSpeed(f) => FieldEntry::Known { num: 14, field: f@ },
            Lap::AvgHeartRate(f) => FieldEntry::Known { num: 15, field: f@ },
            Lap::MaxHeartRate(f) => FieldEntry::Known { num: 16, field: f@ },
            Lap::AvgCadence(f) => FieldEntry::Known { num: 17, field: f@ },
            Lap::MaxCadence(f) => FieldEntry::Known { num: 18, field: f@ },
            Lap::AvgPower(f) => FieldEntry::Known { num: 19, field: f@ },
            Lap::MaxPower(f) => FieldEntry::Known { num: 20, field: f@ },
            Lap::TotalAscent(f) => FieldEntry::Known { num: 21, field: f@ },
            Lap::TotalDescent(f) => FieldEntry::Known { num: 22, field: f@ },
            Lap::Intensity(f) => FieldEntry::Known { num: 23, field: f@ },
            Lap::LapTrigger(f) => FieldEntry::Known { num: 24, field: f@ },
            Lap::Sport(f) => FieldEntry::Known { num: 25, field: f@ },
            Lap::EventGroup(f) => FieldEntry::Known { num: 26, field: f@ },
            Lap::NumLengths(f) => FieldEntry::Known { num: 32, field: f@ },
            Lap::NormalizedPower(f) => FieldEntry::Known { num: 33, field: f@ },
            Lap::LeftRightBalance(f) => FieldEntry::Known { num: 34, field: f@ },
            Lap::FirstLengthIndex(f) => FieldEntry::Known { num: 35, field: f@ },
            Lap::AvgStrokeDistance(f) => FieldEntry::Known { num: 37, field: f@ },
            Lap::SwimStroke(f) => FieldEntry::Known { num: 38, field: f@ },
            Lap::SubSport(f) => FieldEntry::Known { num: 39, field: f@ },
            Lap::NumActiveLengths(f) => FieldEntry::Known { num: 40, field: f@ },
            Lap::TotalWork(f) => FieldEntry::Known { num: 41, field: f@ },
            Lap::AvgAltitude(f) => FieldEntry::Known { num: 42, field: f@ },
            Lap::MaxAltitude(f) => FieldEntry::Known { num: 43, field: f@ },
            Lap::GpsAccuracy(f) => FieldEntry::Known { num: 44, field: f@ },
            Lap::AvgGrade(f) => FieldEntry::Known { num: 45, field: f@ },
            Lap::AvgPosGrade(f) => FieldEntry::Known { num: 46, field: f@ },
            Lap::AvgNegGrade(f) => FieldEntry::Known { num: 47, field: f@ },
            Lap::MaxPosGrade(f) => FieldEntry::Known { num: 48, field: f@ },
            Lap::MaxNegGrade(f) => FieldEntry::Known { num: 49, field: f@ },
            Lap::AvgTemperature(f) => FieldEntry::Known { num: 50, field: f@ },
            Lap::MaxTemperature(f) => FieldEntry::Known { num: 51, field: f@ },
            Lap::TotalMovingTime(f) => FieldEntry::Known { num: 52, field: f@ },
            Lap::AvgPosVerticalSpeed(f) => FieldEntry::Known { num: 53, field: f@ },
            Lap::AvgNegVerticalSpeed(f) => FieldEntry::Known { num: 54, field: f@ },
            Lap::MaxPosVerticalSpeed(f) => FieldEntry::Known { num: 55, field: f@ },
            Lap::MaxNegVerticalSpeed(f) => FieldEntry::Known { num: 56, field: f@ },
            Lap::TimeInHrZone(f) => FieldEntry::Known { num: 57, field: f@ },
            Lap::TimeInSpeedZone(f) => FieldEntry::Known { num: 58, field: f@ },
            Lap::TimeInCadenceZone(f) => FieldEntry::Known { num: 59, field: f@ },
            Lap::TimeInPowerZone(f) => FieldEntry::Known { num: 60, field: f@ },
            Lap::RepetitionNum(f) => FieldEntry::Known { num: 61, field: f@ },
            Lap::MinAltitude(f) => FieldEntry::Known { num: 62, field: f@ },
            Lap::MinHeartRate(f) => FieldEntry::Known { num: 63, field: f@ },
            Lap::WktStepIndex(f) => FieldEntry::Known { num: 71, field: f@ },
            Lap::OpponentScore(f) => FieldEntry::Known { num: 74, field: f@ },
            Lap::StrokeCount(f) => FieldEntry::Known { num: 75, field: f@ },
            Lap::ZoneCount(f) => FieldEntry::Known { num: 76, field: f@ },
            Lap::AvgVerticalOscillation(f) => FieldEntry::Known { num: 77, field: f@ },
            Lap::AvgStanceTimePercent(f) => FieldEntry::Known { num: 78, field: f@ },
            Lap::AvgStanceTime(f) => FieldEntry::Known { num: 79, field: f@ },
            Lap::AvgFractionalCadence(f) => FieldEntry::Known { num: 80, field: f@ },
            Lap::MaxFractionalCadence(f) => FieldEntry::Known { num: 81, field: f@ },
            Lap::TotalFractionalCycles(f) => FieldEntry::Known { num: 82, field: f@ },
            Lap::PlayerScore(f) => FieldEntry::Known { num: 83, field: f@ },
            Lap::AvgTotalHemoglobinConc(f) => FieldEntry::Known { num: 84, field: f@ },
            Lap::MinTotalHemoglobinConc(f) => FieldEntry::Known { num: 85, field: f@ },
            Lap::MaxTotalHemoglobinConc(f) => FieldEntry::Known { num: 86, field: f@ },
            Lap::AvgSaturatedHemoglobinPercent(f) => FieldEntry::Known { num: 87, field: f@ },
            Lap::MinSaturatedHemoglobinPercent(f) => FieldEntry::Known { num: 88, field: f@ },
            Lap::MaxSaturatedHemoglobinPercent(f) => FieldEntry::Known { num: 89, field: f@ },
            Lap::AvgLeftTorqueEffectiveness(f) => FieldEntry::Known { num: 91, field: f@ },
            Lap::AvgRightTorqueEffectiveness(f) => FieldEntry::Known { num: 92, field: f@ },
            Lap::AvgLeftPedalSmoothness(f) => FieldEntry::Known { num: 93, field: f@ },
            Lap::AvgRightPedalSmoothness(f) => FieldEntry::Known { num: 94, field: f@ },
            Lap::AvgCombinedPedalSmoothness(f) => FieldEntry::Known { num: 95, field: f@ },
            Lap::TimeStanding(f) => FieldEntry::Known { num: 98, field: f@ },
            Lap::StandCount(f) => FieldEntry::Known { num: 99, field: f@ },
            Lap::AvgLeftPco(f) => FieldEntry::Known { num: 100, field: f@ },
            Lap::AvgRightPco(f) => FieldEntry::Known { num: 101, field: f@ },
            Lap::AvgLeftPowerPhase(f) => FieldEntry::Known { num: 102, field: f@ },
            Lap::AvgLeftPowerPhasePeak(f) => FieldEntry::Known { num: 103, field: f@ },
            Lap::AvgRightPowerPhase(f) => FieldEntry::Known { num: 104, field: f@ },
            Lap::AvgRightPowerPhasePeak(f) => FieldEntry::Known { num: 105, field: f@ },
            Lap::AvgPowerPosition(f) => FieldEntry::Known { num: 106, field: f@ },
            Lap::MaxPowerPosition(f) => FieldEntry::Known { num: 107, field: f@ },
            Lap::AvgCadencePosition(f) => FieldEntry::Known { num: 108, field: f@ },
            Lap::MaxCadencePosition(f) => FieldEntry::Known { num: 109, field: f@ },
            Lap::EnhancedAvgSpeed(f) => FieldEntry::Known { num: 110, field: f@ },
            Lap::EnhancedMaxSpeed(f) => FieldEntry::Known { num: 111, field: f@ },
            Lap::EnhancedAvgAltitude(f) => FieldEntry::Known { num: 112, field: f@ },
            Lap::EnhancedMinAltitude(f) => FieldEntry::Known { num: 113, field: f@ },
            Lap::EnhancedMaxAltitude(f) => FieldEntry::Known { num: 114, field: f@ },
            Lap::AvgLevMotorPower(f) => FieldEntry::Known { num: 115, field: f@ },
            Lap::MaxLevMotorPower(f) => FieldEntry::Known { num: 116, field: f@ },
            Lap::LevBatteryConsumption(f) => FieldEntry::Known { num: 117, field: f@ },
            Lap::AvgVerticalRatio(f) => FieldEntry::Known { num: 118, field: f@ },
            Lap::AvgStanceTimeBalance(f) => FieldEntry::Known { num: 119, field: f@ },
            Lap::AvgStepLength(f) => FieldEntry::Known { num: 120, field: f@ },
            Lap::AvgVam(f) => FieldEntry::Known { num: 121, field: f@ },
            Lap::Unknown { data, field_def_num } => FieldEntry::Unknown { num: *field_def_num, data: data@ },
        }
    }

    /// Decodes the byte run `buffer` of field `field_def_num` of this message.
    #[verifier::spinoff_prover]
    #[verifier::rlimit(100)]
    pub fn decode(buffer: &[u8], field_def_num: u8, endian: Endian) -> (r: Result<Self, Error>)
        ensures
            match r {
                Ok(m) => decode_entry(Self::profile(field_def_num), field_def_num, buffer@, endian)
                    == Ok::<FieldEntry, Error>(m.entry()),
                Err(x) => decode_entry(Self::profile(field_def_num), field_def_num, buffer@, endian)
                    == Err::<FieldEntry, Error>(x),
            },
    {
        match field_def_num {
            254 => match decode_field(buffer, endian, FieldProfile { base: BaseType::Uint16, profile_type: Some(ProfileType::MessageIndex), scale: None, offset: None, units: None }) {
                Ok(f) => Ok(Lap::MessageIndex(f)),
                Err(x) => Err(x),
            },
            253 => match decode_field(buffer, endian, FieldProfile { base: BaseType::Uint32, profile_type: Some(ProfileType::DateTime), scale: None, offset: None, units: Some("s") }) {
                Ok(f) => Ok(Lap::Timestamp(f)),
                Err(x) => Err(x),
            },
            0 => match decode_field(buffer, endian, FieldProfile { base: BaseType::Enum, profile_type: Some(ProfileType::Event), scale: None, offset: None, units: None }) {
                Ok(f) => Ok(Lap::Event(f)),
                Err(x) => Err(x),
            },
            1 => match decode_field(buffer, endian, FieldProfile { base: BaseType::Enum, profile_type: Some(ProfileType::EventType), scale: None, offset: None, units: None }) {
                Ok(f) => Ok(Lap::EventType(f)),
                Err(x) => Err(x),
            },
            2 => match decode_field(buffer, endian, FieldProfile { base: BaseType::Uint32, profile_type: Some(ProfileType::DateTime), scale: None, offset: None, units: None }) {
                Ok(f) => Ok(Lap::StartTime(f)),
                Err(x) => Err(x),
            },
            3 => match decode_field(buffer, endian, FieldProfile { base: BaseType::Sint32, profile_type: None, scale: None, offset: None, units: Some("semicircles") }) {
                Ok(f) => Ok(Lap::StartPositionLat(f)),
                Err(x) => Err(x),
            },
            4 => match decode_field(buffer, endian, FieldProfile { base: BaseType::Sint32, profile_type: None, scale: None, offset: None, units: Some("semicircles") }) {
                Ok(f) => Ok(Lap::StartPositionLong(f)),
                Err(x) => Err(x),
            },
            5 => match decode_field(buffer, endian, FieldProfile { base: BaseType::Sint32, profile_type: None, scale: None, offset: None, units: Some("semicircles") }) {
                Ok(f) => Ok(Lap::EndPositionLat(f)),
                Err(x) => Err(x),
            },
            6 => match decode_field(buffer, endian, FieldProfile { base: BaseType::Sint32, profile_type: None, scale: None, offset: None, units: Some("semicircles") }) {
                Ok(f) => Ok(Lap::EndPositionLong(f)),
                Err(x) => Err(x),
            },
            7 => match decode_field(buffer, endian, FieldProfile { base: BaseType::Uint32, profile_type: None, scale: Some(Scale { num: 1000, den: 1 }), offset: None, units: Some("s") }) {
                Ok(f) => Ok(Lap::TotalElapsedTime(f)),
                Err(x) => Err(x),
            },
            8 => match decode_field(buffer, endian, FieldProfile { base: BaseType::Uint32, profile_type: None, scale: Some(Scale { num: 1000, den: 1 }), offset: None, units: Some("s") }) {
                Ok(f) => Ok(Lap::TotalTimerTime(f)),
                Err(x) => Err(x),
            },
            9 => match decode_field(buffer, endian, FieldProfile { base: BaseType::Uint32, profile_type: None, scale: Some(Scale { num: 100, den: 1 }), offset: None, units: Some("m") }) {
                Ok(f) => Ok(Lap::TotalDistance(f)),
                Err(x) => Err(x),
            },
            10 => match decode_field(buffer, endian, FieldProfile { base: BaseType::Uint32, profile_type: None, scale: None, offset: None, units: Some("cycles") }) {
                Ok(f) => Ok(Lap::TotalCycles(f)),
                Err(x) => Err(x),
            },
            11 => match decode_field(buffer, endian, FieldProfile { base: BaseType::Uint16, profile_type: None, scale: None, offset: None, units: Some("kcal") }) {
                Ok(f) => Ok(Lap::TotalCalories(f)),
                Err(x) => Err(x),
            },
            12 => match decode_field(buffer, endian, FieldProfile { base: BaseType::Uint16, profile_type: None, scale: None, offset: None, units: Some("kcal") }) {
                Ok(f) => Ok(Lap::TotalFatCalories(f)),
                Err(x) => Err(x),
            },
            13 => match decode_field(buffer, endian, FieldProfile { base: BaseType::Uint16, profile_type: None, scale: Some(Scale { num: 1000, den: 1 }), offset: None, units: Some("m/s") }) {
                Ok(f) => Ok(Lap::AvgSpeed(f)),
                Err(x) => Err(x),
            },
            14 => match decode_field(buffer, endian, FieldProfile { base: BaseType::Uint16, profile_type: None, scale: Some(Scale { num: 1000, den: 1 }), offset: None, units: Some("m/s") }) {
                Ok(f) => Ok(Lap::MaxSpeed(f)),
                Err(x) => Err(x),
            },
            15 => match decode_field(buffer, endian, FieldProfile { base: BaseType::Uint8, profile_type: None, scale: None, offset: None, units: Some("bpm") }) {
                Ok(f) => Ok(Lap::AvgHeartRate(f)),
                Err(x) => Err(x),
            },
            16 => match decode_field(buffer, endian, FieldProfile { base: BaseType::Uint8, profile_type: None, scale: None, offset: None, units: Some("bpm") }) {
                Ok(f) => Ok(Lap::MaxHeartRate(f)),
                Err(x) => Err(x),
            },
            17 => match decode_field(buffer, endian, FieldProfile { base: BaseType::Uint8, profile_type: None, scale: None, offset: None, units: Some("rpm") }) {
                Ok(f) => Ok(Lap::AvgCadence(f)),
                Err(x) => Err(x),
            },
            18 => match decode_field(buffer, endian, FieldProfile { base: BaseType::Uint8, profile_type: None, scale: None, offset: None, units: Some("rpm") }) {
                Ok(f) => Ok(Lap::MaxCadence(f)),
                Err(x) => Err(x),
            },
            19 => match decode_field(buffer, endian, FieldProfile { base: BaseType::Uint16, profile_type: None, scale: None, offset: None, units: Some("watts") }) {
                Ok(f) => Ok(Lap::AvgPower(f)),
                Err(x) => Err(x),
            },
            20 => match decode_field(buffer, endian, FieldProfile { base: BaseType::Uint16, profile_type: None, scale: None, offset: None, units: Some("watts") }) {
                Ok(f) => Ok(Lap::MaxPower(f)),
                Err(x) => Err(x),
            },
            21 => match decode_field(buffer, endian, FieldProfile { base: BaseType::Uint16, profile_type: None, scale: None, offset: None, units: Some("m") }) {
                Ok(f) => Ok(Lap::TotalAscent(f)),
                Err(x) => Err(x),
            },
            22 => match decode_field(buffer, endian, FieldProfile { base: BaseType::Uint16, profile_type: None, scale: None, offset: None, units: Some("m") }) {
                Ok(f) => Ok(Lap::TotalDescent(f)),
                Err(x) => Err(x),
            },
            23 => match decode_field(buffer, endian, FieldProfile { base: BaseType::Enum, profile_type: Some(ProfileType::Intensity), scale: None, offset: None, units: None }) {
                Ok(f) => Ok(Lap::Intensity(f)),
                Err(x) => Err(x),
            },
            24 => match decode_field(buffer, endian, FieldProfile { base: BaseType::Enum, profile_type: Some(ProfileType::LapTrigger), scale: None, offset: None, units: None }) {
                Ok(f) => Ok(Lap::LapTrigger(f)),
                Err(x) => Err(x),
            },
            25 => match decode_field(buffer, endian, FieldProfile { base: BaseType::Enum, profile_type: Some(ProfileType::Sport), scale: None, offset: None, units: None }) {
                Ok(f) => Ok(Lap::Sport(f)),
                Err(x) => Err(x),
            },
            26 => match decode_field(buffer, endian, FieldProfile { base: BaseType::Uint8, profile_type: None, scale: None, offset: None, units: None }) {
                Ok(f) => Ok(Lap::EventGroup(f)),
                Err(x) => Err(x),
            },
            32 => match decode_field(buffer, endian, FieldProfile { base: BaseType::Uint16, profile_type: None, scale: None, offset: None, units: Some("lengths") }) {
                Ok(f) => Ok(Lap::NumLengths(f)),
                Err(x) => Err(x),
            },
            33 => match decode_field(buffer, endian, FieldProfile { base: BaseType::Uint16, profile_type: None, scale: None, offset: None, units: Some("watts") }) {
                Ok(f) => Ok(Lap::NormalizedPower(f)),
                Err(x) => Err(x),
            },
            34 => match decode_field(buffer, endian, FieldProfile { base: BaseType::Uint16, profile_type: Some(ProfileType::LeftRightBalance100), scale: None, offset: None, units: None }) {
                Ok(f) => Ok(Lap::LeftRightBalance(f)),
                Err(x) => Err(x),
            },
            35 => match decode_field(buffer, endian, FieldProfile { base: BaseType::Uint16, profile_type: None, scale: None, offset: None, units: None }) {
                Ok(f) => Ok(Lap::FirstLengthIndex(f)),
                Err(x) => Err(x),
            },
            37 => match decode_field(buffer, endian, FieldProfile { base: BaseType::Uint16, profile_type: None, scale: Some(Scale { num: 100, den: 1 }), offset: None, units: Some("m") }) {
                Ok(f) => Ok(Lap::AvgStrokeDistance(f)),
                Err(x) => Err(x),
            },
            38 => match decode_field(buffer, endian, FieldProfile { base: BaseType::Enum, profile_type: Some(ProfileType::SwimStroke), scale: None, offset: None, units: None }) {
                Ok(f) => Ok(Lap::SwimStroke(f)),
                Err(x) => Err(x),
            },
            39 => match decode_field(buffer, endian, FieldProfile { base: BaseType::Enum, profile_type: Some(ProfileType::SubSport), scale: None, offset: None, units: None }) {
                Ok(f) => Ok(Lap::SubSport(f)),
                Err(x) => Err(x),
            },
            40 => match decode_field(buffer, endian, FieldProfile { base: BaseType::Uint16, profile_type: None, scale: None, offset: None, units: Some("lengths") }) {
                Ok(f) => Ok(Lap::NumActiveLengths(f)),
                Err(x) => Err(x),
            },
            41 => match decode_field(buffer, endian, FieldProfile { base: BaseType::Uint32, profile_type: None, scale: None, offset: None, units: Some("J") }) {
                Ok(f) => Ok(Lap::TotalWork(f)),
                Err(x) => Err(x),
            },
            42 => match decode_field(buffer, endian, FieldProfile { base: BaseType::Uint16, profile_type: None, scale: Some(Scale { num: 5, den: 1 }), offset: Some(500), units: Some("m") }) {
                Ok(f) => Ok(Lap::AvgAltitude(f)),
                Err(x) => Err(x),
            },
            43 => match decode_field(buffer, endian, FieldProfile { base: BaseType::Uint16, profile_type: None, scale: Some(Scale { num: 5, den: 1 }), offset: Some(500), units: Some("m") }) {
                Ok(f) => Ok(Lap::MaxAltitude(f)),
                Err(x) => Err(x),
            },
            44 => match decode_field(buffer, endian, FieldProfile { base: BaseType::Uint8, profile_type: None, scale: None, offset: None, units: Some("m") }) {
                Ok(f) => Ok(Lap::GpsAccuracy(f)),
                Err(x) => Err(x),
            },
            45 => match decode_field(buffer, endian, FieldProfile { base: BaseType::Sint16, profile_type: None, scale: Some(Scale { num: 100, den: 1 }), offset: None, units: Some("%") }) {
                Ok(f) => Ok(Lap::AvgGrade(f)),
                Err(x) => Err(x),
            },
            46 => match decode_field(buffer, endian, FieldProfile { base: BaseType::Sint16, profile_type: None, scale: Some(Scale { num: 100, den: 1 }), offset: None, units: Some("%") }) {
                Ok(f) => Ok(Lap::AvgPosGrade(f)),
                Err(x) => Err(x),
            },
            47 => match decode_field(buffer, endian, FieldProfile { base: BaseType::Sint16, profile_type: None, scale: Some(Scale { num: 100, den: 1 }), offset: None, units: Some("%") }) {
                Ok(f) => Ok(Lap::AvgNegGrade(f)),
                Err(x) => Err(x),
            },
            48 => match decode_field(buffer, endian, FieldProfile { base: BaseType::Sint16, profile_type: None, scale: Some(Scale { num: 100, den: 1 }), offset: None, units: Some("%") }) {
                Ok(f) => Ok(Lap::MaxPosGrade(f)),
                Err(x) => Err(x),
            },
            49 => match decode_field(buffer, endian, FieldProfile { base: BaseType::Sint16, profile_type: None, scale: Some(Scale { num: 100, den: 1 }), offset: None, units: Some("%") }) {
                Ok(f) => Ok(Lap::MaxNegGrade(f)),
                Err(x) => Err(x),
            },
            50 => match decode_field(buffer, endian, FieldProfile { base: BaseType::Sint8, profile_type: None, scale: None, offset: None, units: Some("C") }) {
                Ok(f) => Ok(Lap::AvgTemperature(f)),
                Err(x) => Err(x),
            },
            51 => match decode_field(buffer, endian, FieldProfile { base: BaseType::Sint8, profile_type: None, scale: None, offset: None, units: Some("C") }) {
                Ok(f) => Ok(Lap::MaxTemperature(f)),
                Err(x) => Err(x),
            },
            52 => match decode_field(buffer, endian, FieldProfile { base: BaseType::Uint32, profile_type: None, scale: Some(Scale { num: 1000, den: 1 }), offset: None, units: Some("s") }) {
                Ok(f) => Ok(Lap::TotalMovingTime(f)),
                Err(x) => Err(x),
            },
            53 => match decode_field(buffer, endian, FieldProfile { base: BaseType::Sint16, profile_type: None, scale: Some(Scale { num: 1000, den: 1 }), offset: None, units: Some("m/s") }) {
                Ok(f) => Ok(Lap::AvgPosVerticalSpeed(f)),
                Err(x) => Err(x),
            },
            54 => match decode_field(buffer, endian, FieldProfile { base: BaseType::Sint16, profile_type: None, scale: Some(Scale { num: 1000, den: 1 }), offset: None, units: Some("m/s") }) {
                Ok(f) => Ok(Lap::AvgNegVerticalSpeed(f)),
                Err(x) => Err(x),
            },
            55 => match decode_field(buffer, endian, FieldProfile { base: BaseType::Sint16, profile_type: None, scale: Some(Scale { num: 1000, den: 1 }), offset: None, units: Some("m/s") }) {
                Ok(f) => Ok(Lap::MaxPosVerticalSpeed(f)),
                Err(x) => Err(x),
            },
            56 => match decode_field(buffer, endian, FieldProfile { base: BaseType::Sint16, profile_type: None, scale: Some(Scale { num: 1000, den: 1 }), offset: None, units: Some("m/s") }) {
                Ok(f) => Ok(Lap::MaxNegVerticalSpeed(f)),
                Err(x) => Err(x),
            },
            57 => match decode_field(buffer, endian, FieldProfile { base: BaseType::Uint32, profile_type: None, scale: Some(Scale { num: 1000, den: 1 }), offset: None, units: Some("s") }) {
                Ok(f) => Ok(Lap::TimeInHrZone(f)),
                Err(x) => Err(x),
            },
            58 => match decode_field(buffer, endian, FieldProfile { base: BaseType::Uint32, profile_type: None, scale: Some(Scale { num: 1000, den: 1 }), offset: None, units: Some("s") }) {
                Ok(f) => Ok(Lap::TimeInSpeedZone(f)),
                Err(x) => Err(x),
            },
            59 => match decode_field(buffer, endian, FieldProfile { base: BaseType::Uint32, profile_type: None, scale: Some(Scale { num: 1000, den: 1 }), offset: None, units: Some("s") }) {
                Ok(f) => Ok(Lap::TimeInCadenceZone(f)),
                Err(x) => Err(x),
            },
            60 => match decode_field(buffer, endian, FieldProfile { base: BaseType::Uint32, profile_type: None, scale: Some(Scale { num: 1000, den: 1 }), offset: None, units: Some("s") }) {
                Ok(f) => Ok(Lap::TimeInPowerZone(f)),
                Err(x) => Err(x),
            },
            61 => match decode_field(buffer, endian, FieldProfile { base: BaseType::Uint16, profile_type: None, scale: None, offset: None, units: None }) {
                Ok(f) => Ok(Lap::RepetitionNum(f)),
                Err(x) => Err(x),
            },
            62 => match decode_field(buffer, endian, FieldProfile { base: BaseType::Uint16, profile_type: None, scale: Some(Scale { num: 5, den: 1 }), offset: Some(500), units: Some("m") }) {
                Ok(f) => Ok(Lap::MinAltitude(f)),
                Err(x) => Err(x),
            },
            63 => match decode_field(buffer, endian, FieldProfile { base: BaseType::Uint8, profile_type: None, scale: None, offset: None, units: Some("bpm") }) {
                Ok(f) => Ok(Lap::MinHeartRate(f)),
                Err(x) => Err(x),
            },
            71 => match decode_field(buffer, endian, FieldProfile { base: BaseType::Uint16, profile_type: Some(ProfileType::MessageIndex), scale: None, offset: None, units: None }) {
                Ok(f) => Ok(Lap::WktStepIndex(f)),
                Err(x) => Err(x),
            },
            74 => match decode_field(buffer, endian, FieldProfile { base: BaseType::Uint16, profile_type: None, scale: None, offset: None, units: None }) {
                Ok(f) => Ok(Lap::OpponentScore(f)),
                Err(x) => Err(x),
            },
            75 => match decode_field(buffer, endian, FieldProfile { base: BaseType::Uint16, profile_type: None, scale: None, offset: None, units: Some("counts") }) {
                Ok(f) => Ok(Lap::StrokeCount(f)),
                Err(x) => Err(x),
            },
            76 => match decode_field(buffer, endian, FieldProfile { base: BaseType::Uint16, profile_type: None, scale: None, offset: None, units: Some("counts") }) {
                Ok(f) => Ok(Lap::ZoneCount(f)),
                Err(x) => Err(x),
            },
            77 => match decode_field(buffer, endian, FieldProfile { base: BaseType::Uint16, profile_type: None, scale: Some(Scale { num: 10, den: 1 }), offset: None, units: Some("mm") }) {
                Ok(f) => Ok(Lap::AvgVerticalOscillation(f)),
                Err(x) => Err(x),
            },
            78 => match decode_field(buffer, endian, FieldProfile { base: BaseType::Uint16, profile_type: None, scale: Some(Scale { num: 100, den: 1 }), offset: None, units: Some("percent") }) {
                Ok(f) => Ok(Lap::AvgStanceTimePercent(f)),
                Err(x) => Err(x),
            },
            79 => match decode_field(buffer, endian, FieldProfile { base: BaseType::Uint16, profile_type: None, scale: Some(Scale { num: 10, den: 1 }), offset: None, units: Some("ms") }) {
                Ok(f) => Ok(Lap::AvgStanceTime(f)),
                Err(x) => Err(x),
            },
            80 => match decode_field(buffer, endian, FieldProfile { base: BaseType::Uint8, profile_type: None, scale: Some(Scale { num: 128, den: 1 }), offset: None, units: Some("rpm") }) {
                Ok(f) => Ok(Lap::AvgFractionalCadence(f)),
                Err(x) => Err(x),
            },
            81 => match decode_field(buffer, endian, FieldProfile { base: BaseType::Uint8, profile_type: None, scale: Some(Scale { num: 128, den: 1 }), offset: None, units: Some("rpm") }) {
                Ok(f) => Ok(Lap::MaxFractionalCadence(f)),
                Err(x) => Err(x),
            },
            82 => match decode_field(buffer, endian, FieldProfile { base: BaseType::Uint8, profile_type: None, scale: Some(Scale { num: 128, den: 1 }), offset: None, units: Some("cycles") }) {
                Ok(f) => Ok(Lap::TotalFractionalCycles(f)),
                Err(x) => Err(x),
            },
            83 => match decode_field(buffer, endian, FieldProfile { base: BaseType::Uint16, profile_type: None, scale: None, offset: None, units: None }) {
                Ok(f) => Ok(Lap::PlayerScore(f)),
                Err(x) => Err(x),
            },
            84 => match decode_field(buffer, endian, FieldProfile { base: BaseType::Uint16, profile_type: None, scale: Some(Scale { num: 100, den: 1 }), offset: None, units: Some("g/dL") }) {
                Ok(f) => Ok(Lap::AvgTotalHemoglobinConc(f)),
                Err(x) => Err(x),
            },
            85 => match decode_field(buffer, endian, FieldProfile { base: BaseType::Uint16, profile_type: None, scale: Some(Scale { num: 100, den: 1 }), offset: None, units: Some("g/dL") }) {
                Ok(f) => Ok(Lap::MinTotalHemoglobinConc(f)),
                Err(x) => Err(x),
            },
            86 => match decode_field(buffer, endian, FieldProfile { base: BaseType::Uint16, profile_type: None, scale: Some(Scale { num: 100, den: 1 }), offset: None, units: Some("g/dL") }) {
                Ok(f) => Ok(Lap::MaxTotalHemoglobinConc(f)),
                Err(x) => Err(x),
            },
            87 => match decode_field(buffer, endian, FieldProfile { base: BaseType::Uint16, profile_type: None, scale: Some(Scale { num: 10, den: 1 }), offset: None, units: Some("%") }) {
                Ok(f) => Ok(Lap::AvgSaturatedHemoglobinPercent(f)),
                Err(x) => Err(x),
            },
            88 => match decode_field(buffer, endian, FieldProfile { base: BaseType::Uint16, profile_type: None, scale: Some(Scale { num: 10, den: 1 }), offset: None, units: Some("%") }) {
                Ok(f) => Ok(Lap::MinSaturatedHemoglobinPercent(f)),
                Err(x) => Err(x),
            },
            89 => match decode_field(buffer, endian, FieldProfile { base: BaseType::Uint16, profile_type: None, scale: Some(Scale { num: 10, den: 1 }), offset: None, units: Some("%") }) {
                Ok(f) => Ok(Lap::MaxSaturatedHemoglobinPercent(f)),
                Err(x) => Err(x),
            },
            91 => match decode_field(buffer, endian, FieldProfile { base: BaseType::Uint8, profile_type: None, scale: Some(Scale { num: 2, den: 1 }), offset: None, units: Some("percent") }) {
                Ok(f) => Ok(Lap::AvgLeftTorqueEffectiveness(f)),
                Err(x) => Err(x),
            },
            92 => match decode_field(buffer, endian, FieldProfile { base: BaseType::Uint8, profile_type: None, scale: Some(Scale { num: 2, den: 1 }), offset: None, units: Some("percent") }) {
                Ok(f) => Ok(Lap::AvgRightTorqueEffectiveness(f)),
                Err(x) => Err(x),
            },
            93 => match decode_field(buffer, endian, FieldProfile { base: BaseType::Uint8, profile_type: None, scale: Some(Scale { num: 2, den: 1 }), offset: None, units: Some("percent") }) {
                Ok(f) => Ok(Lap::AvgLeftPedalSmoothness(f)),
                Err(x) => Err(x),
            },
            94 => match decode_field(buffer, endian, FieldProfile { base: BaseType::Uint8, profile_type: None, scale: Some(Scale { num: 2, den: 1 }), offset: None, units: Some("percent") }) {
                Ok(f) => Ok(Lap::AvgRightPedalSmoothness(f)),
                Err(x) => Err(x),
            },
            95 => match decode_field(buffer, endian, FieldProfile { base: BaseType::Uint8, profile_type: None, scale: Some(Scale { num: 2, den: 1 }), offset: None, units: Some("percent") }) {
                Ok(f) => Ok(Lap::AvgCombinedPedalSmoothness(f)),
                Err(x) => Err(x),
            },
            98 => match decode_field(buffer, endian, FieldProfile { base: BaseType::Uint32, profile_type: None, scale: Some(Scale { num: 1000, den: 1 }), offset: None, units: Some("s") }) {
                Ok(f) => Ok(Lap::TimeStanding(f)),
                Err(x) => Err(x),
            },
            99 => match decode_field(buffer, endian, FieldProfile { base: BaseType::Uint16, profile_type: None, scale: None, offset: None, units: None }) {
                Ok(f) => Ok(Lap::StandCount(f)),
                Err(x) => Err(x),
            },
            100 => match decode_field(buffer, endian, FieldProfile { base: BaseType::Sint8, profile_type: None, scale: None, offset: None, units: Some("mm") }) {
                Ok(f) => Ok(Lap::AvgLeftPco(f)),
                Err(x) => Err(x),
            },
            101 => match decode_field(buffer, endian, FieldProfile { base: BaseType::Sint8, profile_type: None, scale: None, offset: None, units: Some("mm") }) {
                Ok(f) => Ok(Lap::AvgRightPco(f)),
                Err(x) => Err(x),
            },
            102 => match decode_field(buffer, endian, FieldProfile { base: BaseType::Uint8, profile_type: None, scale: Some(Scale { num: 7111111, den: 10000000 }), offset: None, units: Some("degrees") }) {
                Ok(f) => Ok(Lap::AvgLeftPowerPhase(f)),
                Err(x) => Err(x),
            },
            103 => match decode_field(buffer, endian, FieldProfile { base: BaseType::Uint8, profile_type: None, scale: Some(Scale { num: 7111111, den: 10000000 }), offset: None, units: Some("degrees") }) {
                Ok(f) => Ok(Lap::AvgLeftPowerPhasePeak(f)),
                Err(x) => Err(x),
            },
            104 => match decode_field(buffer, endian, FieldProfile { base: BaseType::Uint8, profile_type: None, scale: Some(Scale { num: 7111111, den: 10000000 }), offset: None, units: Some("degrees") }) {
                Ok(f) => Ok(Lap::AvgRightPowerPhase(f)),
                Err(x) => Err(x),
            },
            105 => match decode_field(buffer, endian, FieldProfile { base: BaseType::Uint8, profile_type: None, scale: Some(Scale { num: 7111111, den: 10000000 }), offset: None, units: Some("degrees") }) {
                Ok(f) => Ok(Lap::AvgRightPowerPhasePeak(f)),
                Err(x) => Err(x),
            },
            106 => match decode_field(buffer, endian, FieldProfile { base: BaseType::Uint16, profile_type: None, scale: None, offset: None, units: Some("watts") }) {
                Ok(f) => Ok(Lap::AvgPowerPosition(f)),
                Err(x) => Err(x),
            },
            107 => match decode_field(buffer, endian, FieldProfile { base: BaseType::Uint16, profile_type: None, scale: None, offset: None, units: Some("watts") }) {
                Ok(f) => Ok(Lap::MaxPowerPosition(f)),
                Err(x) => Err(x),
            },
            108 => match decode_field(buffer, endian, FieldProfile { base: BaseType::Uint8, profile_type: None, scale: None, offset: None, units: Some("rpm") }) {
                Ok(f) => Ok(Lap::AvgCadencePosition(f)),
                Err(x) => Err(x),
            },
            109 => match decode_field(buffer, endian, FieldProfile { base: BaseType::Uint8, profile_type: None, scale: None, offset: None, units: Some("rpm") }) {
                Ok(f) => Ok(Lap::MaxCadencePosition(f)),
                Err(x) => Err(x),
            },
            110 => match decode_field(buffer, endian, FieldProfile { base: BaseType::Uint32, profile_type: None, scale: Some(Scale { num: 1000, den: 1 }), offset: None, units: Some("m/s") }) {
                Ok(f) => Ok(Lap::EnhancedAvgSpeed(f)),
                Err(x) => Err(x),
            },
            111 => match decode_field(buffer, endian, FieldProfile { base: BaseType::Uint32, profile_type: None, scale: Some(Scale { num: 1000, den: 1 }), offset: None, units: Some("m/s") }) {
                Ok(f) => Ok(Lap::EnhancedMaxSpeed(f)),
                Err(x) => Err(x),
            },
            112 => match decode_field(buffer, endian, FieldProfile { base: BaseType::Uint32, profile_type: None, scale: Some(Scale { num: 5, den: 1 }), offset: Some(500), units: Some("m") }) {
                Ok(f) => Ok(Lap::EnhancedAvgAltitude(f)),
                Err(x) => Err(x),
            },
            113 => match decode_field(buffer, endian, FieldProfile { base: BaseType::Uint32, profile_type: None, scale: Some(Scale { num: 5, den: 1 }), offset: Some(500), units: Some("m") }) {
                Ok(f) => Ok(Lap::EnhancedMinAltitude(f)),
                Err(x) => Err(x),
            },
            114 => match decode_field(buffer, endian, FieldProfile { base: BaseType::Uint32, profile_type: None, scale: Some(Scale { num: 5, den: 1 }), offset: Some(500), units: Some("m") }) {
                Ok(f) => Ok(Lap::EnhancedMaxAltitude(f)),
                Err(x) => Err(x),
            },
            115 => match decode_field(buffer, endian, FieldProfile { base: BaseType::Uint16, profile_type: None, scale: None, offset: None, units: Some("watts") }) {
                Ok(f) => Ok(Lap::AvgLevMotorPower(f)),
                Err(x) => Err(x),
            },
            116 => match decode_field(buffer, endian, FieldProfile { base: BaseType::Uint16, profile_type: None, scale: None, offset: None, units: Some("watts") }) {
                Ok(f) => Ok(Lap::MaxLevMotorPower(f)),
                Err(x) => Err(x),
            },
            117 => match decode_field(buffer, endian, FieldProfile { base: BaseType::Uint8, profile_type: None, scale: Some(Scale { num: 2, den: 1 }), offset: None, units: Some("percent") }) {
                Ok(f) => Ok(Lap::LevBatteryConsumption(f)),
                Err(x) => Err(x),
            },
            118 => match decode_field(buffer, endian, FieldProfile { base: BaseType::Uint16, profile_type: None, scale: Some(Scale { num: 100, den: 1 }), offset: None, units: Some("percent") }) {
                Ok(f) => Ok(Lap::AvgVerticalRatio(f)),
                Err(x) => Err(x),
            },
            119 => match decode_field(buffer, endian, FieldProfile { base: BaseType::Uint16, profile_type: None, scale: Some(Scale { num: 100, den: 1 }), offset: None, units: Some("percent") }) {
                Ok(f) => Ok(Lap::AvgStanceTimeBalance(f)),
                Err(x) => Err(x),
            },
            120 => match decode_field(buffer, endian, FieldProfile { base: BaseType::Uint16, profile_type: None, scale: Some(Scale { num: 10, den: 1 }), offset: None, units: Some("mm") }) {
                Ok(f) => Ok(Lap::AvgStepLength(f)),
                Err(x) => Err(x),
            },
            121 => match decode_field(buffer, endian, FieldProfile { base: BaseType::Uint16, profile_type: None, scale: Some(Scale { num: 1000, den: 1 }), offset: None, units: Some("m/s") }) {
                Ok(f) => Ok(Lap::AvgVam(f)),
                Err(x) => Err(x),
            },
            _ => Ok(Lap::Unknown { data: slice_to_vec(buffer), field_def_num }),
        }
    }
}

#[derive(Debug, Clone)]
pub enum Length {
    MessageIndex(Field),
    Timestamp(Field),
    Event(Field),
    EventType(Field),
    StartTime(Field),
    TotalElapsedTime(Field),
    TotalTimerTime(Field),
    TotalStrokes(Field),
    AvgSpeed(Field),
    SwimStroke(Field),
    AvgSwimmingCadence(Field),
    EventGroup(Field),
    TotalCalories(Field),
    LengthType(Field),
    PlayerScore(Field),
    OpponentScore(Field),
    /// stroke_type enum used as the index
    StrokeCount(Field),
    /// zone number used as the index
    ZoneCount(Field),
    Unknown { data: Vec<u8>, field_def_num: u8 },
}

impl Length {
    /// The profile entry of each field of this message.
    pub open spec fn profile(field_def_num: u8) -> Option<FieldProfile> {
        match field_def_num {
            254 => Some(FieldProfile { base: BaseType::Uint16, profile_type: Some(ProfileType::MessageIndex), scale: None, offset: None, units: None }),
            253 => Some(FieldProfile { base: BaseType::Uint32, profile_type: Some(ProfileType::DateTime), scale: None, offset: None, units: None }),
            0 => Some(FieldProfile { base: BaseType::Enum, profile_type: Some(ProfileType::Event), scale: None, offset: None, units: None }),
            1 => Some(FieldProfile { base: BaseType::Enum, profile_type: Some(ProfileType::EventType), scale: None, offset: None, units: None }),
            2 => Some(FieldProfile { base: BaseType::Uint32, profile_type: Some(ProfileType::DateTime), scale: None, offset: None, units: None }),
            3 => Some(FieldProfile { base: BaseType::Uint32, profile_type: None, scale: Some(Scale { num: 1000, den: 1 }), offset: None, units: Some("s") }),
            4 => Some(FieldProfile { base: BaseType::Uint32, profile_type: None, scale: Some(Scale { num: 1000, den: 1 }), offset: None, units: Some("s") }),
            5 => Some(FieldProfile { base: BaseType::Uint16, profile_type: None, scale: None, offset: None, units: Some("strokes") }),
            6 => Some(FieldProfile { base: BaseType::Uint16, profile_type: None, scale: Some(Scale { num: 1000, den: 1 }), offset: None, units: Some("m/s") }),
            7 => Some(FieldProfile { base: BaseType::Enum, profile_type: Some(ProfileType::SwimStroke), scale: None, offset: None, units: Some("swim_stroke") }),
            9 => Some(FieldProfile { base: BaseType::Uint8, profile_type: None, scale: None, offset: None, units: Some("strokes/min") }),
            10 => Some(FieldProfile { base: BaseType::Uint8, profile_type: None, scale: None, offset: None, units: None }),
            11 => Some(FieldProfile { base: BaseType::Uint16, profile_type: None, scale: None, offset: None, units: Some("kcal") }),
            12 => Some(FieldProfile { base: BaseType::Enum, profile_type: Some(ProfileType::LengthType), scale: None, offset: None, units: None }),
            18 => Some(FieldProfile { base: BaseType::Uint16, profile_type: None, scale: None, offset: None, units: None }),
            19 => Some(FieldProfile { base: BaseType::Uint16, profile_type: None, scale: None, offset: None, units: None }),
            20 => Some(FieldProfile { base: BaseType::Uint16, profile_type: None, scale: None, offset: None, units: Some("counts") }),
            21 => Some(FieldProfile { base: BaseType::Uint16, profile_type: None, scale: None, offset: None, units: Some("counts") }),
            _ => None,
        }
    }

    /// The field this value holds.
    pub open spec fn entry(&self) -> FieldEntry {
        match self {
            Length::MessageIndex(f) => FieldEntry::Known { num: 254, field: f@ },
            Length::Timestamp(f) => FieldEntry::Known { num: 253, field: f@ },
            Length::Event(f) => FieldEntry::Known { num: 0, field: f@ },
            Length::EventType(f) => FieldEntry::Known { num: 1, field: f@ },
            Length::StartTime(f) => FieldEntry::Known { num: 2, field: f@ },
            Length::TotalElapsedTime(f) => FieldEntry::Known { num: 3, field: f@ },
            Length::TotalTimerTime(f) => FieldEntry::Known { num: 4, field: f@ },
            Length::TotalStrokes(f) => FieldEntry::Known { num: 5, field: f@ },
            Length::AvgSpeed(f) => FieldEntry::Known { num: 6, field: f@ },
            Length::SwimStroke(f) => FieldEntry::Known { num: 7, field: f@ },
            Length::AvgSwimmingCadence(f) => FieldEntry::Known { num: 9, field: f@ },
            Length::EventGroup(f) => FieldEntry::Known { num: 10, field: f@ },
            Length::TotalCalories(f) => FieldEntry::Known { num: 11, field: f@ },
            Length::LengthType(f) => FieldEntry::Known { num: 12, field: f@ },
            Length::PlayerScore(f) => FieldEntry::Known { num: 18, field: f@ },
            Length::OpponentScore(f) => FieldEntry::Known { num: 19, field: f@ },
            Length::StrokeCount(f) => FieldEntry::Known { num: 20, field: f@ },
            Length::ZoneCount(f) => FieldEntry::Known { num: 21, field: f@ },
            Length::Unknown { data, field_def_num } => FieldEntry::Unknown { num: *field_def_num, data: data@ },
        }
    }

    /// Decodes the byte run `buffer` of field `field_def_num` of this message.
    pub fn decode(buffer: &[u8], field_def_num: u8, endian: Endian) -> (r: Result<Self, Error>)
        ensures
            match r {
                Ok(m) => decode_entry(Self::profile(field_def_num), field_def_num, buffer@, endian)
                    == Ok::<FieldEntry, Error>(m.entry()),
                Err(x) => decode_entry(Self::profile(field_def_num), field_def_num, buffer@, endian)
                    == Err::<FieldEntry, Error>(x),
            },
    {
        match field_def_num {
            254 => match decode_field(buffer, endian, FieldProfile { base: BaseType::Uint16, profile_type: Some(ProfileType::MessageIndex), scale: None, offset: None, units: None }) {
                Ok(f) => Ok(Length::MessageIndex(f)),
                Err(x) => Err(x),
            },
            253 => match decode_field(buffer, endian, FieldProfile { base: BaseType::Uint32, profile_type: Some(ProfileType::DateTime), scale: None, offset: None, units: None }) {
                Ok(f) => Ok(Length::Timestamp(f)),
                Err(x) => Err(x),
            },
            0 => match decode_field(buffer, endian, FieldProfile { base: BaseType::Enum, profile_type: Some(ProfileType::Event), scale: None, offset: None, units: None }) {
                Ok(f) => Ok(Length::Event(f)),
                Err(x) => Err(x),
            },
            1 => match decode_field(buffer, endian, FieldProfile { base: BaseType::Enum, profile_type: Some(ProfileType::EventType), scale: None, offset: None, units: None }) {
                Ok(f) => Ok(Length::EventType(f)),
                Err(x) => Err(x),
            },
            2 => match decode_field(buffer, endian, FieldProfile { base: BaseType::Uint32, profile_type: Some(ProfileType::DateTime), scale: None, offset: None, units: None }) {
                Ok(f) => Ok(Length::StartTime(f)),
                Err(x) => Err(x),
            },
            3 => match decode_field(buffer, endian, FieldProfile { base: BaseType::Uint32, profile_type: None, scale: Some(Scale { num: 1000, den: 1 }), offset: None, units: Some("s") }) {
                Ok(f) => Ok(Length::TotalElapsedTime(f)),
                Err(x) => Err(x),
            },
            4 => match decode_field(buffer, endian, FieldProfile { base: BaseType::Uint32, profile_type: None, scale: Some(Scale { num: 1000, den: 1 }), offset: None, units: Some("s") }) {
                Ok(f) => Ok(Length::TotalTimerTime(f)),
                Err(x) => Err(x),
            },
            5 => match decode_field(buffer, endian, FieldProfile { base: BaseType::Uint16, profile_type: None, scale: None, offset: None, units: Some("strokes") }) {
                Ok(f) => Ok(Length::TotalStrokes(f)),
                Err(x) => Err(x),
            },
            6 => match decode_field(buffer, endian, FieldProfile { base: BaseType::Uint16, profile_type: None, scale: Some(Scale { num: 1000, den: 1 }), offset: None, units: Some("m/s") }) {
                Ok(f) => Ok(Length::AvgSpeed(f)),
                Err(x) => Err(x),
            },
            7 => match decode_field(buffer, endian, FieldProfile { base: BaseType::Enum, profile_type: Some(ProfileType::SwimStroke), scale: None, offset: None, units: Some("swim_stroke") }) {
                Ok(f) => Ok(Length::SwimStroke(f)),
                Err(x) => Err(x),
            },
            9 => match decode_field(buffer, endian, FieldProfile { base: BaseType::Uint8, profile_type: None, scale: None, offset: None, units: Some("strokes/min") }) {
                Ok(f) => Ok(Length::AvgSwimmingCadence(f)),
                Err(x) => Err(x),
            },
            10 => match decode_field(buffer, endian, FieldProfile { base: BaseType::Uint8, profile_type: None, scale: None, offset: None, units: None }) {
                Ok(f) => Ok(Length::EventGroup(f)),
                Err(x) => Err(x),
            },
            11 => match decode_field(buffer, endian, FieldProfile { base: BaseType::Uint16, profile_type: None, scale: None, offset: None, units: Some("kcal") }) {
                Ok(f) => Ok(Length::TotalCalories(f)),
                Err(x) => Err(x),
            },
            12 => match decode_field(buffer, endian, FieldProfile { base: BaseType::Enum, profile_type: Some(ProfileType::LengthType), scale: None, offset: None, units: None }) {
                Ok(f) => Ok(Length::LengthType(f)),
                Err(x) => Err(x),
            },
            18 => match decode_field(buffer, endian, FieldProfile { base: BaseType::Uint16, profile_type: None, scale: None, offset: None, units: None }) {
                Ok(f) => Ok(Length::PlayerScore(f)),
                Err(x) => Err(x),
            },
            19 => match decode_field(buffer, endian, FieldProfile { base: BaseType::Uint16, profile_type: None, scale: None, offset: None, units: None }) {
                Ok(f) => Ok(Length::OpponentScore(f)),
                Err(x) => Err(x),
            },
            20 => match decode_field(buffer, endian, FieldProfile { base: BaseType::Uint16, profile_type: None, scale: None, offset: None, units: Some("counts") }) {
                Ok(f) => Ok(Length::StrokeCount(f)),
                Err(x) => Err(x),
            },
            21 => match decode_field(buffer, endian, FieldProfile { base: BaseType::Uint16, profile_type: None, scale: None, offset: None, units: Some("counts") }) {
                Ok(f) => Ok(Length::ZoneCount(f)),
                Err(x) => Err(x),
            },
            _ => Ok(Length::Unknown { data: slice_to_vec(buffer), field_def_num }),
        }
    }
}

#[derive(Debug, Clone)]
pub enum Record {
    Timestamp(Field),
    PositionLat(Field),
    PositionLong(Field),
    Altitude(Field),
    HeartRate(Field),
    Cadence(Field),
    Distance(Field),
    Speed(Field),
    Power(Field),
    CompressedSpeedDistance(Field),
    Grade(Field),
    /// Relative. 0 is none  254 is Max.
    Resistance(Field),
    TimeFromCourse(Field),
    CycleLength(Field),
    Temperature(Field),
    /// Speed at 1s intervals.  Timestamp field indicates time of last array element.
    Speed1S(Field),
    Cycles(Field),
    TotalCycles(Field),
    CompressedAccumulatedPower(Field),
    AccumulatedPower(Field),
    LeftRightBalance(Field),
    GpsAccuracy(Field),
    VerticalSpeed(Field),
    Calories(Field),
    VerticalOscillation(Field),
    StanceTimePercent(Field),
    StanceTime(Field),
    ActivityType(Field),
    LeftTorqueEffectiveness(Field),
    RightTorqueEffectiveness(Field),
    LeftPedalSmoothness(Field),
    RightPedalSmoothness(Field),
    CombinedPedalSmoothness(Field),
    Time128(Field),
    StrokeType(Field),
    Zone(Field),
    BallSpeed(Field),
    /// Log cadence and fractional cadence for backwards compatability
    Cadence256(Field),
    FractionalCadence(Field),
    /// Total saturated and unsaturated hemoglobin
    TotalHemoglobinConc(Field),
    /// Min saturated and unsaturated hemoglobin
    TotalHemoglobinConcMin(Field),
    /// Max saturated and unsaturated hemoglobin
    TotalHemoglobinConcMax(Field),
    /// Percentage of hemoglobin saturated with oxygen
    SaturatedHemoglobinPercent(Field),
    /// Min percentage of hemoglobin saturated with oxygen
    SaturatedHemoglobinPercentMin(Field),
    /// Max percentage of hemoglobin saturated with oxygen
    SaturatedHemoglobinPercentMax(Field),
    DeviceIndex(Field),
    /// Left platform center offset
    LeftPco(Field),
    /// Right platform center offset
    RightPco(Field),
    /// Left power phase angles. Data raw_value indexes defined by power_phase_type.
    LeftPowerPhase(Field),
    /// Left power phase peak angles. Data raw_value indexes defined by power_phase_type.
    LeftPowerPhasePeak(Field),
    /// Right power phase angles. Data raw_value indexes defined by power_phase_type.
    RightPowerPhase(Field),
    /// Right power phase peak angles. Data raw_value indexes defined by power_phase_type.
    RightPowerPhasePeak(Field),
    EnhancedSpeed(Field),
    EnhancedAltitude(Field),
    /// lev battery state of charge
    BatterySoc(Field),
    /// lev motor power
    MotorPower(Field),
    VerticalRatio(Field),
    StanceTimeBalance(Field),
    StepLength(Field),
    /// Includes atmospheric pressure
    AbsolutePressure(Field),
    /// 0 if above water
    Depth(Field),
    /// 0 if above water
    NextStopDepth(Field),
    NextStopTime(Field),
    TimeToSurface(Field),
    NdlTime(Field),
    CnsLoad(Field),
    N2Load(Field),
    Unknown { data: Vec<u8>, field_def_num: u8 },
}

impl Record {
    /// The profile entry of each field of this message.
    pub open spec fn profile(field_def_num: u8) -> Option<FieldProfile> {
        match field_def_num {
            253 => Some(FieldProfile { base: BaseType::Uint32, profile_type: Some(ProfileType::DateTime), scale: None, offset: None, units: Some("s") }),
            0 => Some(FieldProfile { base: BaseType::Sint32, profile_type: None, scale: None, offset: None, units: Some("semicircles") }),
            1 => Some(FieldProfile { base: BaseType::Sint32, profile_type: None, scale: None, offset: None, units: Some("semicircles") }),
            2 => Some(FieldProfile { base: BaseType::Uint16, profile_type: None, scale: Some(Scale { num: 5, den: 1 }), offset: Some(500), units: Some("m") }),
            3 => Some(FieldProfile { base: BaseType::Uint8, profile_type: None, scale: None, offset: None, units: Some("bpm") }),
            4 => Some(FieldProfile { base: BaseType::Uint8, profile_type: None, scale: None, offset: None, units: Some("rpm") }),
            5 => Some(FieldProfile { base: BaseType::Uint32, profile_type: None, scale: Some(Scale { num: 100, den: 1 }), offset: None, units: Some("m") }),
            6 => Some(FieldProfile { base: BaseType::Uint16, profile_type: None, scale: Some(Scale { num: 1000, den: 1 }), offset: None, units: Some("m/s") }),
            7 => Some(FieldProfile { base: BaseType::Uint16, profile_type: None, scale: None, offset: None, units: Some("watts") }),
            8 => Some(FieldProfile { base: BaseType::Bytes, profile_type: None, scale: None, offset: None, units: Some("m/s,\r\nm") }),
            9 => Some(FieldProfile { base: BaseType::Sint16, profile_type: None, scale: Some(Scale { num: 100, den: 1 }), offset: None, units: Some("%") }),
            10 => Some(FieldProfile { base: BaseType::Uint8, profile_type: None, scale: None, offset: None, units: None }),
            11 => Some(FieldProfile { base: BaseType::Sint32, profile_type: None, scale: Some(Scale { num: 1000, den: 1 }), offset: None, units: Some("s") }),
            12 => Some(FieldProfile { base: BaseType::Uint8, profile_type: None, scale: Some(Scale { num: 100, den: 1 }), offset: None, units: Some("m") }),
            13 => Some(FieldProfile { base: BaseType::Sint8, profile_type: None, scale: None, offset: None, units: Some("C") }),
            17 => Some(FieldProfile { base: BaseType::Uint8, profile_type: None, scale: Some(Scale { num: 16, den: 1 }), offset: None, units: Some("m/s") }),
            18 => Some(FieldProfile { base: BaseType::Uint8, profile_type: None, scale: None, offset: None, units: Some("cycles") }),
            19 => Some(FieldProfile { base: BaseType::Uint32, profile_type: None, scale: None, offset: None, units: Some("cycles") }),
            28 => Some(FieldProfile { base: BaseType::Uint16, profile_type: None, scale: None, offset: None, units: Some("watts") }),
            29 => Some(FieldProfile { base: BaseType::Uint32, profile_type: None, scale: None, offset: None, units: Some("watts") }),
            30 => Some(FieldProfile { base: BaseType::Uint8, profile_type: Some(ProfileType::LeftRightBalance), scale: None, offset: None, units: None }),
            31 => Some(FieldProfile { base: BaseType::Uint8, profile_type: None, scale: None, offset: None, units: Some("m") }),
            32 => Some(FieldProfile { base: BaseType::Sint16, profile_type: None, scale: Some(Scale { num: 1000, den: 1 }), offset: None, units: Some("m/s") }),
            33 => Some(FieldProfile { base: BaseType::Uint16, profile_type: None, scale: None, offset: None, units: Some("kcal") }),
            39 => Some(FieldProfile { base: BaseType::Uint16, profile_type: None, scale: Some(Scale { num: 10, den: 1 }), offset: None, units: Some("mm") }),
            40 => Some(FieldProfile { base: BaseType::Uint16, profile_type: None, scale: Some(Scale { num: 100, den: 1 }), offset: None, units: Some("percent") }),
            41 => Some(FieldProfile { base: BaseType::Uint16, profile_type: None, scale: Some(Scale { num: 10, den: 1 }), offset: None, units: Some("ms") }),
            42 => Some(FieldProfile { base: BaseType::Enum, profile_type: Some(ProfileType::ActivityType), scale: None, offset: None, units: None }),
            43 => Some(FieldProfile { base: BaseType::Uint8, profile_type: None, scale: Some(Scale { num: 2, den: 1 }), offset: None, units: Some("percent") }),
            44 => Some(FieldProfile { base: BaseType::Uint8, profile_type: None, scale: Some(Scale { num: 2, den: 1 }), offset: None, units: Some("percent") }),
            45 => Some(FieldProfile { base: BaseType::Uint8, profile_type: None, scale: Some(Scale { num: 2, den: 1 }), offset: None, units: Some("percent") }),
            46 => Some(FieldProfile { base: BaseType::Uint8, profile_type: None, scale: Some(Scale { num: 2, den: 1 }), offset: None, units: Some("percent") }),
            47 => Some(FieldProfile { base: BaseType::Uint8, profile_type: None, scale: Some(Scale { num: 2, den: 1 }), offset: None, units: Some("percent") }),
            48 => Some(FieldProfile { base: BaseType::Uint8, profile_type: None, scale: Some(Scale { num: 128, den: 1 }), offset: None, units: Some("s") }),
            49 => Some(FieldProfile { base: BaseType::Enum, profile_type: Some(ProfileType::StrokeType), scale: None, offset: None, units: None }),
            50 => Some(FieldProfile { base: BaseType::Uint8, profile_type: None, scale: None, offset: None, units: None }),
            51 => Some(FieldProfile { base: BaseType::Uint16, profile_type: None, scale: Some(Scale { num: 100, den: 1 }), offset: None, units: Some("m/s") }),
            52 => Some(FieldProfile { base: BaseType::Uint16, profile_type: None, scale: Some(Scale { num: 256, den: 1 }), offset: None, units: Some("rpm") }),
            53 => Some(FieldProfile { base: BaseType::Uint8, profile_type: None, scale: Some(Scale { num: 128, den: 1 }), offset: None, units: Some("rpm") }),
            54 => Some(FieldProfile { base: BaseType::Uint16, profile_type: None, scale: Some(Scale { num: 100, den: 1 }), offset: None, units: Some("g/dL") }),
            55 => Some(FieldProfile { base: BaseType::Uint16, profile_type: None, scale: Some(Scale { num: 100, den: 1 }), offset: None, units: Some("g/dL") }),
            56 => Some(FieldProfile { base: BaseType::Uint16, profile_type: None, scale: Some(Scale { num: 100, den: 1 }), offset: None, units: Some("g/dL") }),
            57 => Some(FieldProfile { base: BaseType::Uint16, profile_type: None, scale: Some(Scale { num: 10, den: 1 }), offset: None, units: Some("%") }),
            58 => Some(FieldProfile { base: BaseType::Uint16, profile_type: None, scale: Some(Scale { num: 10, den: 1 }), offset: None, units: Some("%") }),
            59 => Some(FieldProfile { base: BaseType::Uint16, profile_type: None, scale: Some(Scale { num: 10, den: 1 }), offset: None, units: Some("%") }),
            62 => Some(FieldProfile { base: BaseType::Uint8, profile_type: Some(ProfileType::DeviceIndex), scale: None, offset: None, units: None }),
            67 => Some(FieldProfile { base: BaseType::Sint8, profile_type: None, scale: None, offset: None, units: Some("mm") }),
            68 => Some(FieldProfile { base: BaseType::Sint8, profile_type: None, scale: None, offset: None, units: Some("mm") }),
            69 => Some(FieldProfile { base: BaseType::Uint8, profile_type: None, scale: Some(Scale { num: 7111111, den: 10000000 }), offset: None, units: Some("degrees") }),
            70 => Some(FieldProfile { base: BaseType::Uint8, profile_type: None, scale: Some(Scale { num: 7111111, den: 10000000 }), offset: None, units: Some("degrees") }),
            71 => Some(FieldProfile { base: BaseType::Uint8, profile_type: None, scale: Some(Scale { num: 7111111, den: 10000000 }), offset: None, units: Some("degrees") }),
            72 => Some(FieldProfile { base: BaseType::Uint8, profile_type: None, scale: Some(Scale { num: 7111111, den: 10000000 }), offset: None, units: Some("degrees") }),
            73 => Some(FieldProfile { base: BaseType::Uint32, profile_type: None, scale: Some(Scale { num: 1000, den: 1 }), offset: None, units: Some("m/s") }),
            78 => Some(FieldProfile { base: BaseType::Uint32, profile_type: None, scale: Some(Scale { num: 5, den: 1 }), offset: Some(500), units: Some("m") }),
            81 => Some(FieldProfile { base: BaseType::Uint8, profile_type: None, scale: Some(Scale { num: 2, den: 1 }), offset: None, units: Some("percent") }),
            82 => Some(FieldProfile { base: BaseType::Uint16, profile_type: None, scale: None, offset: None, units: Some("watts") }),
            83 => Some(FieldProfile { base: BaseType::Uint16, profile_type: None, scale: Some(Scale { num: 100, den: 1 }), offset: None, units: Some("percent") }),
            84 => Some(FieldProfile { base: BaseType::Uint16, profile_type: None, scale: Some(Scale { num: 100, den: 1 }), offset: None, units: Some("percent") }),
            85 => Some(FieldProfile { base: BaseType::Uint16, profile_type: None, scale: Some(Scale { num: 10, den: 1 }), offset: None, units: Some("mm") }),
            91 => Some(FieldProfile { base: BaseType::Uint32, profile_type: None, scale: None, offset: None, units: Some("Pa") }),
            92 => Some(FieldProfile { base: BaseType::Uint32, profile_type: None, scale: Some(Scale { num: 1000, den: 1 }), offset: None, units: Some("m") }),
            93 => Some(FieldProfile { base: BaseType::Uint32, profile_type: None, scale: Some(Scale { num: 1000, den: 1 }), offset: None, units: Some("m") }),
            94 => Some(FieldProfile { base: BaseType::Uint32, profile_type: None, scale: Some(Scale { num: 1, den: 1 }), offset: None, units: Some("s") }),
            95 => Some(FieldProfile { base: BaseType::Uint32, profile_type: None, scale: Some(Scale { num: 1, den: 1 }), offset: None, units: Some("s") }),
            96 => Some(FieldProfile { base: BaseType::Uint32, profile_type: None, scale: Some(Scale { num: 1, den: 1 }), offset: None, units: Some("s") }),
            97 => Some(FieldProfile { base: BaseType::Uint8, profile_type: None, scale: None, offset: None, units: Some("percent") }),
            98 => Some(FieldProfile { base: BaseType::Uint16, profile_type: None, scale: Some(Scale { num: 1, den: 1 }), offset: None, units: Some("percent") }),
            _ => None,
        }
    }

    /// The field this value holds.
    pub open spec fn entry(&self) -> FieldEntry {
        match self {
            Record::Timestamp(f) => FieldEntry::Known { num: 253, field: f@ },
            Record::PositionLat(f) => FieldEntry::Known { num: 0, field: f@ },
            Record::PositionLong(f) => FieldEntry::Known { num: 1, field: f@ },
            Record::Altitude(f) => FieldEntry::Known { num: 2, field: f@ },
            Record::HeartRate(f) => FieldEntry::Known { num: 3, field: f@ },
            Record::Cadence(f) => FieldEntry::Known { num: 4, field: f@ },
            Record::Distance(f) => FieldEntry::Known { num: 5, field: f@ },
            Record::Speed(f) => FieldEntry::Known { num: 6, field: f@ },
            Record::Power(f) => FieldEntry::Known { num: 7, field: f@ },
            Record::CompressedSpeedDistance(f) => FieldEntry::Known { num: 8, field: f@ },
            Record::Grade(f) => FieldEntry::Known { num: 9, field: f@ },
            Record::Resistance(f) => FieldEntry::Known { num: 10, field: f@ },
            Record::TimeFromCourse(f) => FieldEntry::Known { num: 11, field: f@ },
            Record::CycleLength(f) => FieldEntry::Known { num: 12, field: f@ },
            Record::Temperature(f) => FieldEntry::Known { num: 13, field: f@ },
            Record::Speed1S(f) => FieldEntry::Known { num: 17, field: f@ },
            Record::Cycles(f) => FieldEntry::Known { num: 18, field: f@ },
            Record::TotalCycles(f) => FieldEntry::Known { num: 19, field: f@ },
            Record::CompressedAccumulatedPower(f) => FieldEntry::Known { num: 28, field: f@ },
            Record::AccumulatedPower(f) => FieldEntry::Known { num: 29, field: f@ },
            Record::LeftRightBalance(f) => FieldEntry::Known { num: 30, field: f@ },
            Record::GpsAccuracy(f) => FieldEntry::Known { num: 31, field: f@ },
            Record::VerticalSpeed(f) => FieldEntry::Known { num: 32, field: f@ },
            Record::Calories(f) => FieldEntry::Known { num: 33, field: f@ },
            Record::VerticalOscillation(f) => FieldEntry::Known { num: 39, field: f@ },
            Record::StanceTimePercent(f) => FieldEntry::Known { num: 40, field: f@ },
            Record::StanceTime(f) => FieldEntry::Known { num: 41, field: f@ },
            Record::ActivityType(f) => FieldEntry::Known { num: 42, field: f@ },
            Record::LeftTorqueEffectiveness(f) => FieldEntry::Known { num: 43, field: f@ },
            Record::RightTorqueEffectiveness(f) => FieldEntry::Known { num: 44, field: f@ },
            Record::LeftPedalSmoothness(f) => FieldEntry::Known { num: 45, field: f@ },
            Record::RightPedalSmoothness(f) => FieldEntry::Known { num: 46, field: f@ },
            Record::CombinedPedalSmoothness(f) => FieldEntry::Known { num: 47, field: f@ },
            Record::Time128(f) => FieldEntry::Known { num: 48, field: f@ },
            Record::StrokeType(f) => FieldEntry::Known { num: 49, field: f@ },
            Record::Zone(f) => FieldEntry::Known { num: 50, field: f@ },
            Record::BallSpeed(f) => FieldEntry::Known { num: 51, field: f@ },
            Record::Cadence256(f) => FieldEntry::Known { num: 52, field: f@ },
            Record::FractionalCadence(f) => FieldEntry::Known { num: 53, field: f@ },
            Record::TotalHemoglobinConc(f) => FieldEntry::Known { num: 54, field: f@ },
            Record::TotalHemoglobinConcMin(f) => FieldEntry::Known { num: 55, field: f@ },
            Record::TotalHemoglobinConcMax(f) => FieldEntry::Known { num: 56, field: f@ },
            Record::SaturatedHemoglobinPercent(f) => FieldEntry::Known { num: 57, field: f@ },
            Record::SaturatedHemoglobinPercentMin(f) => FieldEntry::Known { num: 58, field: f@ },
            Record::SaturatedHemoglobinPercentMax(f) => FieldEntry::Known { num: 59, field: f@ },
            Record::DeviceIndex(f) => FieldEntry::Known { num: 62, field: f@ },
            Record::LeftPco(f) => FieldEntry::Known { num: 67, field: f@ },
            Record::RightPco(f) => FieldEntry::Known { num: 68, field: f@ },
            Record::LeftPowerPhase(f) => FieldEntry::Known { num: 69, field: f@ },
            Record::LeftPowerPhasePeak(f) => FieldEntry::Known { num: 70, field: f@ },
            Record::RightPowerPhase(f) => FieldEntry::Known { num: 71, field: f@ },
            Record::RightPowerPhasePeak(f) => FieldEntry::Known { num: 72, field: f@ },
            Record::EnhancedSpeed(f) => FieldEntry::Known { num: 73, field: f@ },
            Record::EnhancedAltitude(f) => FieldEntry::Known { num: 78, field: f@ },
            Record::BatterySoc(f) => FieldEntry::Known { num: 81, field: f@ },
            Record::MotorPower(f) => FieldEntry::Known { num: 82, field: f@ },
            Record::VerticalRatio(f) => FieldEntry::Known { num: 83, field: f@ },
            Record::StanceTimeBalance(f) => FieldEntry::Known { num: 84, field: f@ },
            Record::StepLength(f) => FieldEntry::Known { num: 85, field: f@ },
            Record::AbsolutePressure(f) => FieldEntry::Known { num: 91, field: f@ },
            Record::Depth(f) => FieldEntry::Known { num: 92, field: f@ },
            Record::NextStopDepth(f) => FieldEntry::Known { num: 93, field: f@ },
            Record::NextStopTime(f) => FieldEntry::Known { num: 94, field: f@ },
            Record::TimeToSurface(f) => FieldEntry::Known { num: 95, field: f@ },
            Record::NdlTime(f) => FieldEntry::Known { num: 96, field: f@ },
            Record::CnsLoad(f) => FieldEntry::Known { num: 97, field: f@ },
            Record::N2Load(f) => FieldEntry::Known { num: 98, field: f@ },
            Record::Unknown { data, field_def_num } => FieldEntry::Unknown { num: *field_def_num, data: data@ },
        }
    }

    /// Decodes the byte run `buffer` of field `field_def_num` of this message.
    #[verifier::spinoff_prover]
    #[verifier::rlimit(100)]
    pub fn decode(buffer: &[u8], field_def_num: u8, endian: Endian) -> (r: Result<Self, Error>)
        ensures
            match r {
                Ok(m) => decode_entry(Self::profile(field_def_num), field_def_num, buffer@, endian)
                    == Ok::<FieldEntry, Error>(m.entry()),
                Err(x) => decode_entry(Self::profile(field_def_num), field_def_num, buffer@, endian)
                    == Err::<FieldEntry, Error>(x),
            },
    {
        match field_def_num {
            253 => match decode_field(buffer, endian, FieldProfile { base: BaseType::Uint32, profile_type: Some(ProfileType::DateTime), scale: None, offset: None, units: Some("s") }) {
                Ok(f) => Ok(Record::Timestamp(f)),
                Err(x) => Err(x),
            },
            0 => match decode_field(buffer, endian, FieldProfile { base: BaseType::Sint32, profile_type: None, scale: None, offset: None, units: Some("semicircles") }) {
                Ok(f) => Ok(Record::PositionLat(f)),
                Err(x) => Err(x),
            },
            1 => match decode_field(buffer, endian, FieldProfile { base: BaseType::Sint32, profile_type: None, scale: None, offset: None, units: Some("semicircles") }) {
                Ok(f) => Ok(Record::PositionLong(f)),
                Err(x) => Err(x),
            },
            2 => match decode_field(buffer, endian, FieldProfile { base: BaseType::Uint16, profile_type: None, scale: Some(Scale { num: 5, den: 1 }), offset: Some(500), units: Some("m") }) {
                Ok(f) => Ok(Record::Altitude(f)),
                Err(x) => Err(x),
            },
            3 => match decode_field(buffer, endian, FieldProfile { base: BaseType::Uint8, profile_type: None, scale: None, offset: None, units: Some("bpm") }) {
                Ok(f) => Ok(Record::HeartRate(f)),
                Err(x) => Err(x),
            },
            4 => match decode_field(buffer, endian, FieldProfile { base: BaseType::Uint8, profile_type: None, scale: None, offset: None, units: Some("rpm") }) {
                Ok(f) => Ok(Record::Cadence(f)),
                Err(x) => Err(x),
            },
            5 => match decode_field(buffer, endian, FieldProfile { base: BaseType::Uint32, profile_type: None, scale: Some(Scale { num: 100, den: 1 }), offset: None, units: Some("m") }) {
                Ok(f) => Ok(Record::Distance(f)),
                Err(x) => Err(x),
            },
            6 => match decode_field(buffer, endian, FieldProfile { base: BaseType::Uint16, profile_type: None, scale: Some(Scale { num: 1000, den: 1 }), offset: None, units: Some("m/s") }) {
                Ok(f) => Ok(Record::Speed(f)),
                Err(x) => Err(x),
            },
            7 => match decode_field(buffer, endian, FieldProfile { base: BaseType::Uint16, profile_type: None, scale: None, offset: None, units: Some("watts") }) {
                Ok(f) => Ok(Record::Power(f)),
                Err(x) => Err(x),
            },
            8 => match decode_field(buffer, endian, FieldProfile { base: BaseType::Bytes, profile_type: None, scale: None, offset: None, units: Some("m/s,\r\nm") }) {
                Ok(f) => Ok(Record::CompressedSpeedDistance(f)),
                Err(x) => Err(x),
            },
            9 => match decode_field(buffer, endian, FieldProfile { base: BaseType::Sint16, profile_type: None, scale: Some(Scale { num: 100, den: 1 }), offset: None, units: Some("%") }) {
                Ok(f) => Ok(Record::Grade(f)),
                Err(x) => Err(x),
            },
            10 => match decode_field(buffer, endian, FieldProfile { base: BaseType::Uint8, profile_type: None, scale: None, offset: None, units: None }) {
                Ok(f) => Ok(Record::Resistance(f)),
                Err(x) => Err(x),
            },
            11 => match decode_field(buffer, endian, FieldProfile { base: BaseType::Sint32, profile_type: None, scale: Some(Scale { num: 1000, den: 1 }), offset: None, units: Some("s") }) {
                Ok(f) => Ok(Record::TimeFromCourse(f)),
                Err(x) => Err(x),
            },
            12 => match decode_field(buffer, endian, FieldProfile { base: BaseType::Uint8, profile_type: None, scale: Some(Scale { num: 100, den: 1 }), offset: None, units: Some("m") }) {
                Ok(f) => Ok(Record::CycleLength(f)),
                Err(x) => Err(x),
            },
            13 => match decode_field(buffer, endian, FieldProfile { base: BaseType::Sint8, profile_type: None, scale: None, offset: None, units: Some("C") }) {
                Ok(f) => Ok(Record::Temperature(f)),
                Err(x) => Err(x),
            },
            17 => match decode_field(buffer, endian, FieldProfile { base: BaseType::Uint8, profile_type: None, scale: Some(Scale { num: 16, den: 1 }), offset: None, units: Some("m/s") }) {
                Ok(f) => Ok(Record::Speed1S(f)),
                Err(x) => Err(x),
            },
            18 => match decode_field(buffer, endian, FieldProfile { base: BaseType::Uint8, profile_type: None, scale: None, offset: None, units: Some("cycles") }) {
                Ok(f) => Ok(Record::Cycles(f)),
                Err(x) => Err(x),
            },
            19 => match decode_field(buffer, endian, FieldProfile { base: BaseType::Uint32, profile_type: None, scale: None, offset: None, units: Some("cycles") }) {
                Ok(f) => Ok(Record::TotalCycles(f)),
                Err(x) => Err(x),
            },
            28 => match decode_field(buffer, endian, FieldProfile { base: BaseType::Uint16, profile_type: None, scale: None, offset: None, units: Some("watts") }) {
                Ok(f) => Ok(Record::CompressedAccumulatedPower(f)),
                Err(x) => Err(x),
            },
            29 => match decode_field(buffer, endian, FieldProfile { base: BaseType::Uint32, profile_type: None, scale: None, offset: None, units: Some("watts") }) {
                Ok(f) => Ok(Record::AccumulatedPower(f)),
                Err(x) => Err(x),
            },
            30 => match decode_field(buffer, endian, FieldProfile { base: BaseType::Uint8, profile_type: Some(ProfileType::LeftRightBalance), scale: None, offset: None, units: None }) {
                Ok(f) => Ok(Record::LeftRightBalance(f)),
                Err(x) => Err(x),
            },
            31 => match decode_field(buffer, endian, FieldProfile { base: BaseType::Uint8, profile_type: None, scale: None, offset: None, units: Some("m") }) {
                Ok(f) => Ok(Record::GpsAccuracy(f)),
                Err(x) => Err(x),
            },
            32 => match decode_field(buffer, endian, FieldProfile { base: BaseType::Sint16, profile_type: None, scale: Some(Scale { num: 1000, den: 1 }), offset: None, units: Some("m/s") }) {
                Ok(f) => Ok(Record::VerticalSpeed(f)),
                Err(x) => Err(x),
            },
            33 => match decode_field(buffer, endian, FieldProfile { base: BaseType::Uint16, profile_type: None, scale: None, offset: None, units: Some("kcal") }) {
                Ok(f) => Ok(Record::Calories(f)),
                Err(x) => Err(x),
            },
            39 => match decode_field(buffer, endian, FieldProfile { base: BaseType::Uint16, profile_type: None, scale: Some(Scale { num: 10, den: 1 }), offset: None, units: Some("mm") }) {
                Ok(f) => Ok(Record::VerticalOscillation(f)),
                Err(x) => Err(x),
            },
            40 => match decode_field(buffer, endian, FieldProfile { base: BaseType::Uint16, profile_type: None, scale: Some(Scale { num: 100, den: 1 }), offset: None, units: Some("percent") }) {
                Ok(f) => Ok(Record::StanceTimePercent(f)),
                Err(x) => Err(x),
            },
            41 => match decode_field(buffer, endian, FieldProfile { base: BaseType::Uint16, profile_type: None, scale: Some(Scale { num: 10, den: 1 }), offset: None, units: Some("ms") }) {
                Ok(f) => Ok(Record::StanceTime(f)),
                Err(x) => Err(x),
            },
            42 => match decode_field(buffer, endian, FieldProfile { base: BaseType::Enum, profile_type: Some(ProfileType::ActivityType), scale: None, offset: None, units: None }) {
                Ok(f) => Ok(Record::ActivityType(f)),
                Err(x) => Err(x),
            },
            43 => match decode_field(buffer, endian, FieldProfile { base: BaseType::Uint8, profile_type: None, scale: Some(Scale { num: 2, den: 1 }), offset: None, units: Some("percent") }) {
                Ok(f) => Ok(Record::LeftTorqueEffectiveness(f)),
                Err(x) => Err(x),
            },
            44 => match decode_field(buffer, endian, FieldProfile { base: BaseType::Uint8, profile_type: None, scale: Some(Scale { num: 2, den: 1 }), offset: None, units: Some("percent") }) {
                Ok(f) => Ok(Record::RightTorqueEffectiveness(f)),
                Err(x) => Err(x),
            },
            45 => match decode_field(buffer, endian, FieldProfile { base: BaseType::Uint8, profile_type: None, scale: Some(Scale { num: 2, den: 1 }), offset: None, units: Some("percent") }) {
                Ok(f) => Ok(Record::LeftPedalSmoothness(f)),
                Err(x) => Err(x),
            },
            46 => match decode_field(buffer, endian, FieldProfile { base: BaseType::Uint8, profile_type: None, scale: Some(Scale { num: 2, den: 1 }), offset: None, units: Some("percent") }) {
                Ok(f) => Ok(Record::RightPedalSmoothness(f)),
                Err(x) => Err(x),
            },
            47 => match decode_field(buffer, endian, FieldProfile { base: BaseType::Uint8, profile_type: None, scale: Some(Scale { num: 2, den: 1 }), offset: None, units: Some("percent") }) {
                Ok(f) => Ok(Record::CombinedPedalSmoothness(f)),
                Err(x) => Err(x),
            },
            48 => match decode_field(buffer, endian, FieldProfile { base: BaseType::Uint8, profile_type: None, scale: Some(Scale { num: 128, den: 1 }), offset: None, units: Some("s") }) {
                Ok(f) => Ok(Record::Time128(f)),
                Err(x) => Err(x),
            },
            49 => match decode_field(buffer, endian, FieldProfile { base: BaseType::Enum, profile_type: Some(ProfileType::StrokeType), scale: None, offset: None, units: None }) {
                Ok(f) => Ok(Record::StrokeType(f)),
                Err(x) => Err(x),
            },
            50 => match decode_field(buffer, endian, FieldProfile { base: BaseType::Uint8, profile_type: None, scale: None, offset: None, units: None }) {
                Ok(f) => Ok(Record::Zone(f)),
                Err(x) => Err(x),
            },
            51 => match decode_field(buffer, endian, FieldProfile { base: BaseType::Uint16, profile_type: None, scale: Some(Scale { num: 100, den: 1 }), offset: None, units: Some("m/s") }) {
                Ok(f) => Ok(Record::BallSpeed(f)),
                Err(x) => Err(x),
            },
            52 => match decode_field(buffer, endian, FieldProfile { base: BaseType::Uint16, profile_type: None, scale: Some(Scale { num: 256, den: 1 }), offset: None, units: Some("rpm") }) {
                Ok(f) => Ok(Record::Cadence256(f)),
                Err(x) => Err(x),
            },
            53 => match decode_field(buffer, endian, FieldProfile { base: BaseType::Uint8, profile_type: None, scale: Some(Scale { num: 128, den: 1 }), offset: None, units: Some("rpm") }) {
                Ok(f) => Ok(Record::FractionalCadence(f)),
                Err(x) => Err(x),
            },
            54 => match decode_field(buffer, endian, FieldProfile { base: BaseType::Uint16, profile_type: None, scale: Some(Scale { num: 100, den: 1 }), offset: None, units: Some("g/dL") }) {
                Ok(f) => Ok(Record::TotalHemoglobinConc(f)),
                Err(x) => Err(x),
            },
            55 => match decode_field(buffer, endian, FieldProfile { base: BaseType::Uint16, profile_type: None, scale: Some(Scale { num: 100, den: 1 }), offset: None, units: Some("g/dL") }) {
                Ok(f) => Ok(Record::TotalHemoglobinConcMin(f)),
                Err(x) => Err(x),
            },
            56 => match decode_field(buffer, endian, FieldProfile { base: BaseType::Uint16, profile_type: None, scale: Some(Scale { num: 100, den: 1 }), offset: None, units: Some("g/dL") }) {
                Ok(f) => Ok(Record::TotalHemoglobinConcMax(f)),
                Err(x) => Err(x),
            },
            57 => match decode_field(buffer, endian, FieldProfile { base: BaseType::Uint16, profile_type: None, scale: Some(Scale { num: 10, den: 1 }), offset: None, units: Some("%") }) {
                Ok(f) => Ok(Record::SaturatedHemoglobinPercent(f)),
                Err(x) => Err(x),
            },
            58 => match decode_field(buffer, endian, FieldProfile { base: BaseType::Uint16, profile_type: None, scale: Some(Scale { num: 10, den: 1 }), offset: None, units: Some("%") }) {
                Ok(f) => Ok(Record::SaturatedHemoglobinPercentMin(f)),
                Err(x) => Err(x),
            },
            59 => match decode_field(buffer, endian, FieldProfile { base: BaseType::Uint16, profile_type: None, scale: Some(Scale { num: 10, den: 1 }), offset: None, units: Some("%") }) {
                Ok(f) => Ok(Record::SaturatedHemoglobinPercentMax(f)),
                Err(x) => Err(x),
            },
            62 => match decode_field(buffer, endian, FieldProfile { base: BaseType::Uint8, profile_type: Some(ProfileType::DeviceIndex), scale: None, offset: None, units: None }) {
                Ok(f) => Ok(Record::DeviceIndex(f)),
                Err(x) => Err(x),
            },
            67 => match decode_field(buffer, endian, FieldProfile { base: BaseType::Sint8, profile_type: None, scale: None, offset: None, units: Some("mm") }) {
                Ok(f) => Ok(Record::LeftPco(f)),
                Err(x) => Err(x),
            },
            68 => match decode_field(buffer, endian, FieldProfile { base: BaseType::Sint8, profile_type: None, scale: None, offset: None, units: Some("mm") }) {
                Ok(f) => Ok(Record::RightPco(f)),
                Err(x) => Err(x),
            },
            69 => match decode_field(buffer, endian, FieldProfile { base: BaseType::Uint8, profile_type: None, scale: Some(Scale { num: 7111111, den: 10000000 }), offset: None, units: Some("degrees") }) {
                Ok(f) => Ok(Record::LeftPowerPhase(f)),
                Err(x) => Err(x),
            },
            70 => match decode_field(buffer, endian, FieldProfile { base: BaseType::Uint8, profile_type: None, scale: Some(Scale { num: 7111111, den: 10000000 }), offset: None, units: Some("degrees") }) {
                Ok(f) => Ok(Record::LeftPowerPhasePeak(f)),
                Err(x) => Err(x),
            },
            71 => match decode_field(buffer, endian, FieldProfile { base: BaseType::Uint8, profile_type: None, scale: Some(Scale { num: 7111111, den: 10000000 }), offset: None, units: Some("degrees") }) {
                Ok(f) => Ok(Record::RightPowerPhase(f)),
                Err(x) => Err(x),
            },
            72 => match decode_field(buffer, endian, FieldProfile { base: BaseType::Uint8, profile_type: None, scale: Some(Scale { num: 7111111, den: 10000000 }), offset: None, units: Some("degrees") }) {
                Ok(f) => Ok(Record::RightPowerPhasePeak(f)),
                Err(x) => Err(x),
            },
            73 => match decode_field(buffer, endian, FieldProfile { base: BaseType::Uint32, profile_type: None, scale: Some(Scale { num: 1000, den: 1 }), offset: None, units: Some("m/s") }) {
                Ok(f) => Ok(Record::EnhancedSpeed(f)),
                Err(x) => Err(x),
            },
            78 => match decode_field(buffer, endian, FieldProfile { base: BaseType::Uint32, profile_type: None, scale: Some(Scale { num: 5, den: 1 }), offset: Some(500), units: Some("m") }) {
                Ok(f) => Ok(Record::EnhancedAltitude(f)),
                Err(x) => Err(x),
            },
            81 => match decode_field(buffer, endian, FieldProfile { base: BaseType::Uint8, profile_type: None, scale: Some(Scale { num: 2, den: 1 }), offset: None, units: Some("percent") }) {
                Ok(f) => Ok(Record::BatterySoc(f)),
                Err(x) => Err(x),
            },
            82 => match decode_field(buffer, endian, FieldProfile { base: BaseType::Uint16, profile_type: None, scale: None, offset: None, units: Some("watts") }) {
                Ok(f) => Ok(Record::MotorPower(f)),
                Err(x) => Err(x),
            },
            83 => match decode_field(buffer, endian, FieldProfile { base: BaseType::Uint16, profile_type: None, scale: Some(Scale { num: 100, den: 1 }), offset: None, units: Some("percent") }) {
                Ok(f) => Ok(Record::VerticalRatio(f)),
                Err(x) => Err(x),
            },
            84 => match decode_field(buffer, endian, FieldProfile { base: BaseType::Uint16, profile_type: None, scale: Some(Scale { num: 100, den: 1 }), offset: None, units: Some("percent") }) {
                Ok(f) => Ok(Record::StanceTimeBalance(f)),
                Err(x) => Err(x),
            },
            85 => match decode_field(buffer, endian, FieldProfile { base: BaseType::Uint16, profile_type: None, scale: Some(Scale { num: 10, den: 1 }), offset: None, units: Some("mm") }) {
                Ok(f) => Ok(Record::StepLength(f)),
                Err(x) => Err(x),
            },
            91 => match decode_field(buffer, endian, FieldProfile { base: BaseType::Uint32, profile_type: None, scale: None, offset: None, units: Some("Pa") }) {
                Ok(f) => Ok(Record::AbsolutePressure(f)),
                Err(x) => Err(x),
            },
            92 => match decode_field(buffer, endian, FieldProfile { base: BaseType::Uint32, profile_type: None, scale: Some(Scale { num: 1000, den: 1 }), offset: None, units: Some("m") }) {
                Ok(f) => Ok(Record::Depth(f)),
                Err(x) => Err(x),
            },
            93 => match decode_field(buffer, endian, FieldProfile { base: BaseType::Uint32, profile_type: None, scale: Some(Scale { num: 1000, den: 1 }), offset: None, units: Some("m") }) {
                Ok(f) => Ok(Record::NextStopDepth(f)),
                Err(x) => Err(x),
            },
            94 => match decode_field(buffer, endian, FieldProfile { base: BaseType::Uint32, profile_type: None, scale: Some(Scale { num: 1, den: 1 }), offset: None, units: Some("s") }) {
                Ok(f) => Ok(Record::NextStopTime(f)),
                Err(x) => Err(x),
            },
            95 => match decode_field(buffer, endian, FieldProfile { base: BaseType::Uint32, profile_type: None, scale: Some(Scale { num: 1, den: 1 }), offset: None, units: Some("s") }) {
                Ok(f) => Ok(Record::TimeToSurface(f)),
                Err(x) => Err(x),
            },
            96 => match decode_field(buffer, endian, FieldProfile { base: BaseType::Uint32, profile_type: None, scale: Some(Scale { num: 1, den: 1 }), offset: None, units: Some("s") }) {
                Ok(f) => Ok(Record::NdlTime(f)),
                Err(x) => Err(x),
            },
            97 => match decode_field(buffer, endian, FieldProfile { base: BaseType::Uint8, profile_type: None, scale: None, offset: None, units: Some("percent") }) {
                Ok(f) => Ok(Record::CnsLoad(f)),
                Err(x) => Err(x),
            },
            98 => match decode_field(buffer, endian, FieldProfile { base: BaseType::Uint16, profile_type: None, scale: Some(Scale { num: 1, den: 1 }), offset: None, units: Some("percent") }) {
                Ok(f) => Ok(Record::N2Load(f)),
                Err(x) => Err(x),
            },
            _ => Ok(Record::Unknown { data: slice_to_vec(buffer), field_def_num }),
        }
    }
}

#[derive(Debug, Clone)]
pub enum Event {
    Timestamp(Field),
    Event(Field),
    EventType(Field),
    Data16(Field),
    Data(Field),
    EventGroup(Field),
    /// Do not populate directly.  Derived by decoders for sport_point subfield components
    Score(Field),
    /// Do not populate directly.  Derived by decoders for sport_point subfield components
    OpponentScore(Field),
    /// Do not populate directly.  Derived by decoders for gear_change subfield components.  Front gear number. 1 is innermost.
    FrontGearNum(Field),
    /// Do not populate directly.  Derived by decoders for gear_change subfield components.  Number of front teeth.
    FrontGear(Field),
    /// Do not populate directly.  Derived by decoders for gear_change subfield components.  Rear gear number. 1 is innermost.
    RearGearNum(Field),
    /// Do not populate directly.  Derived by decoders for gear_change subfield components.  Number of rear teeth.
    RearGear(Field),
    DeviceIndex(Field),
    Unknown { data: Vec<u8>, field_def_num: u8 },
}

impl Event {
    /// The profile entry of each field of this message.
    pub open spec fn profile(field_def_num: u8) -> Option<FieldProfile> {
        match field_def_num {
            253 => Some(FieldProfile { base: BaseType::Uint32, profile_type: Some(ProfileType::DateTime), scale: None, offset: None, units: Some("s") }),
            0 => Some(FieldProfile { base: BaseType::Enum, profile_type: Some(ProfileType::Event), scale: None, offset: None, units: None }),
            1 => Some(FieldProfile { base: BaseType::Enum, profile_type: Some(ProfileType::EventType), scale: None, offset: None, units: None }),
            2 => Some(FieldProfile { base: BaseType::Uint16, profile_type: None, scale: None, offset: None, units: None }),
            3 => Some(FieldProfile { base: BaseType::Uint32, profile_type: None, scale: None, offset: None, units: None }),
            4 => Some(FieldProfile { base: BaseType::Uint8, profile_type: None, scale: None, offset: None, units: None }),
            7 => Some(FieldProfile { base: BaseType::Uint16, profile_type: None, scale: None, offset: None, units: None }),
            8 => Some(FieldProfile { base: BaseType::Uint16, profile_type: None, scale: None, offset: None, units: None }),
            9 => Some(FieldProfile { base: BaseType::Uint8z, profile_type: None, scale: None, offset: None, units: None }),
            10 => Some(FieldProfile { base: BaseType::Uint8z, profile_type: None, scale: None, offset: None, units: None }),
            11 => Some(FieldProfile { base: BaseType::Uint8z, profile_type: None, scale: None, offset: None, units: None }),
            12 => Some(FieldProfile { base: BaseType::Uint8z, profile_type: None, scale: None, offset: None, units: None }),
            13 => Some(FieldProfile { base: BaseType::Uint8, profile_type: Some(ProfileType::DeviceIndex), scale: None, offset: None, units: None }),
            _ => None,
        }
    }

    /// The field this value holds.
    pub open spec fn entry(&self) -> FieldEntry {
        match self {
            Event::Timestamp(f) => FieldEntry::Known { num: 253, field: f@ },
            Event::Event(f) => FieldEntry::Known { num: 0, field: f@ },
            Event::EventType(f) => FieldEntry::Known { num: 1, field: f@ },
            Event::Data16(f) => FieldEntry::Known { num: 2, field: f@ },
            Event::Data(f) => FieldEntry::Known { num: 3, field: f@ },
            Event::EventGroup(f) => FieldEntry::Known { num: 4, field: f@ },
            Event::Score(f) => FieldEntry::Known { num: 7, field: f@ },
            Event::OpponentScore(f) => FieldEntry::Known { num: 8, field: f@ },
            Event::FrontGearNum(f) => FieldEntry::Known { num: 9, field: f@ },
            Event::FrontGear(f) => FieldEntry::Known { num: 10, field: f@ },
            Event::RearGearNum(f) => FieldEntry::Known { num: 11, field: f@ },
            Event::RearGear(f) => FieldEntry::Known { num: 12, field: f@ },
            Event::DeviceIndex(f) => FieldEntry::Known { num: 13, field: f@ },
            Event::Unknown { data, field_def_num } => FieldEntry::Unknown { num: *field_def_num, data: data@ },
        }
    }

    /// Decodes the byte run `buffer` of field `field_def_num` of this message.
    pub fn decode(buffer: &[u8], field_def_num: u8, endian: Endian) -> (r: Result<Self, Error>)
        ensures
            match r {
                Ok(m) => decode_entry(Self::profile(field_def_num), field_def_num, buffer@, endian)
                    == Ok::<FieldEntry, Error>(m.entry()),
                Err(x) => decode_entry(Self::profile(field_def_num), field_def_num, buffer@, endian)
                    == Err::<FieldEntry, Error>(x),
            },
    {
        match field_def_num {
            253 => match decode_field(buffer, endian, FieldProfile { base: BaseType::Uint32, profile_type: Some(ProfileType::DateTime), scale: None, offset: None, units: Some("s") }) {
                Ok(f) => Ok(Event::Timestamp(f)),
                Err(x) => Err(x),
            },
            0 => match decode_field(buffer, endian, FieldProfile { base: BaseType::Enum, profile_type: Some(ProfileType::Event), scale: None, offset: None, units: None }) {
                Ok(f) => Ok(Event::Event(f)),
                Err(x) => Err(x),
            },
            1 => match decode_field(buffer, endian, FieldProfile { base: BaseType::Enum, profile_type: Some(ProfileType::EventType), scale: None, offset: None, units: None }) {
                Ok(f) => Ok(Event::EventType(f)),
                Err(x) => Err(x),
            },
            2 => match decode_field(buffer, endian, FieldProfile { base: BaseType::Uint16, profile_type: None, scale: None, offset: None, units: None }) {
                Ok(f) => Ok(Event::Data16(f)),
                Err(x) => Err(x),
            },
            3 => match decode_field(buffer, endian, FieldProfile { base: BaseType::Uint32, profile_type: None, scale: None, offset: None, units: None }) {
                Ok(f) => Ok(Event::Data(f)),
                Err(x) => Err(x),
            },
            4 => match decode_field(buffer, endian, FieldProfile { base: BaseType::Uint8, profile_type: None, scale: None, offset: None, units: None }) {
                Ok(f) => Ok(Event::EventGroup(f)),
                Err(x) => Err(x),
            },
            7 => match decode_field(buffer, endian, FieldProfile { base: BaseType::Uint16, profile_type: None, scale: None, offset: None, units: None }) {
                Ok(f) => Ok(Event::Score(f)),
                Err(x) => Err(x),
            },
            8 => match decode_field(buffer, endian, FieldProfile { base: BaseType::Uint16, profile_type: None, scale: None, offset: None, units: None }) {
                Ok(f) => Ok(Event::OpponentScore(f)),
                Err(x) => Err(x),
            },
            9 => match decode_field(buffer, endian, FieldProfile { base: BaseType::Uint8z, profile_type: None, scale: None, offset: None, units: None }) {
                Ok(f) => Ok(Event::FrontGearNum(f)),
                Err(x) => Err(x),
            },
            10 => match decode_field(buffer, endian, FieldProfile { base: BaseType::Uint8z, profile_type: None, scale: None, offset: None, units: None }) {
                Ok(f) => Ok(Event::FrontGear(f)),
                Err(x) => Err(x),
            },
            11 => match decode_field(buffer, endian, FieldProfile { base: BaseType::Uint8z, profile_type: None, scale: None, offset: None, units: None }) {
                Ok(f) => Ok(Event::RearGearNum(f)),
                Err(x) => Err(x),
            },
            12 => match decode_field(buffer, endian, FieldProfile { base: BaseType::Uint8z, profile_type: None, scale: None, offset: None, units: None }) {
                Ok(f) => Ok(Event::RearGear(f)),
                Err(x) => Err(x),
            },
            13 => match decode_field(buffer, endian, FieldProfile { base: BaseType::Uint8, profile_type: Some(ProfileType::DeviceIndex), scale: None, offset: None, units: None }) {
                Ok(f) => Ok(Event::DeviceIndex(f)),
                Err(x) => Err(x),
            },
            _ => Ok(Event::Unknown { data: slice_to_vec(buffer), field_def_num }),
        }
    }
}

#[derive(Debug, Clone)]
pub enum DeviceInfo {
    Timestamp(Field),
    DeviceIndex(Field),
    DeviceType(Field),
    Manufacturer(Field),
    SerialNumber(Field),
    Product(Field),
    SoftwareVersion(Field),
    HardwareVersion(Field),
    /// Reset by new battery or charge.
    CumOperatingTime(Field),
    BatteryVoltage(Field),
    BatteryStatus(Field),
    /// Indicates the location of the sensor
    SensorPosition(Field),
    /// Used to describe the sensor or location
    Descriptor(Field),
    AntTransmissionType(Field),
    AntDeviceNumber(Field),
    AntNetwork(Field),
    SourceType(Field),
    /// Optional free form string to indicate the devices name or model
    ProductName(Field),
    Unknown { data: Vec<u8>, field_def_num: u8 },
}

impl DeviceInfo {
    /// The profile entry of each field of this message.
    pub open spec fn profile(field_def_num: u8) -> Option<FieldProfile> {
        match field_def_num {
            253 => Some(FieldProfile { base: BaseType::Uint32, profile_type: Some(ProfileType::DateTime), scale: None, offset: None, units: Some("s") }),
            0 => Some(FieldProfile { base: BaseType::Uint8, profile_type: Some(ProfileType::DeviceIndex), scale: None, offset: None, units: None }),
            1 => Some(FieldProfile { base: BaseType::Uint8, profile_type: None, scale: None, offset: None, units: None }),
            2 => Some(FieldProfile { base: BaseType::Uint16, profile_type: Some(ProfileType::Manufacturer), scale: None, offset: None, units: None }),
            3 => Some(FieldProfile { base: BaseType::Uint32z, profile_type: None, scale: None, offset: None, units: None }),
            4 => Some(FieldProfile { base: BaseType::Uint16, profile_type: None, scale: None, offset: None, units: None }),
            5 => Some(FieldProfile { base: BaseType::Uint16, profile_type: None, scale: Some(Scale { num: 100, den: 1 }), offset: None, units: None }),
            6 => Some(FieldProfile { base: BaseType::Uint8, profile_type: None, scale: None, offset: None, units: None }),
            7 => Some(FieldProfile { base: BaseType::Uint32, profile_type: None, scale: None, offset: None, units: Some("s") }),
            10 => Some(FieldProfile { base: BaseType::Uint16, profile_type: None, scale: Some(Scale { num: 256, den: 1 }), offset: None, units: Some("V") }),
            11 => Some(FieldProfile { base: BaseType::Uint8, profile_type: Some(ProfileType::BatteryStatus), scale: None, offset: None, units: None }),
            18 => Some(FieldProfile { base: BaseType::Enum, profile_type: Some(ProfileType::BodyLocation), scale: None, offset: None, units: None }),
            19 => Some(FieldProfile { base: BaseType::Utf8String, profile_type: None, scale: None, offset: None, units: None }),
            20 => Some(FieldProfile { base: BaseType::Uint8z, profile_type: None, scale: None, offset: None, units: None }),
            21 => Some(FieldProfile { base: BaseType::Uint16z, profile_type: None, scale: None, offset: None, units: None }),
            22 => Some(FieldProfile { base: BaseType::Enum, profile_type: Some(ProfileType::AntNetwork), scale: None, offset: None, units: None }),
            25 => Some(FieldProfile { base: BaseType::Enum, profile_type: Some(ProfileType::SourceType), scale: None, offset: None, units: None }),
            27 => Some(FieldProfile { base: BaseType::Utf8String, profile_type: None, scale: None, offset: None, units: None }),
            _ => None,
        }
    }

    /// The field this value holds.
    pub open spec fn entry(&self) -> FieldEntry {
        match self {
            DeviceInfo::Timestamp(f) => FieldEntry::Known { num: 253, field: f@ },
            DeviceInfo::DeviceIndex(f) => FieldEntry::Known { num: 0, field: f@ },
            DeviceInfo::DeviceType(f) => FieldEntry::Known { num: 1, field: f@ },
            DeviceInfo::Manufacturer(f) => FieldEntry::Known { num: 2, field: f@ },
            DeviceInfo::SerialNumber(f) => FieldEntry::Known { num: 3, field: f@ },
            DeviceInfo::Product(f) => FieldEntry::Known { num: 4, field: f@ },
            DeviceInfo::SoftwareVersion(f) => FieldEntry::Known { num: 5, field: f@ },
            DeviceInfo::HardwareVersion(f) => FieldEntry::Known { num: 6, field: f@ },
            DeviceInfo::CumOperatingTime(f) => FieldEntry::Known { num: 7, field: f@ },
            DeviceInfo::BatteryVoltage(f) => FieldEntry::Known { num: 10, field: f@ },
            DeviceInfo::BatteryStatus(f) => FieldEntry::Known { num: 11, field: f@ },
            DeviceInfo::SensorPosition(f) => FieldEntry::Known { num: 18, field: f@ },
            DeviceInfo::Descriptor(f) => FieldEntry::Known { num: 19, field: f@ },
            DeviceInfo::AntTransmissionType(f) => FieldEntry::Known { num: 20, field: f@ },
            DeviceInfo::AntDeviceNumber(f) => FieldEntry::Known { num: 21, field: f@ },
            DeviceInfo::AntNetwork(f) => FieldEntry::Known { num: 22, field: f@ },
            DeviceInfo::SourceType(f) => FieldEntry::Known { num: 25, field: f@ },
            DeviceInfo::ProductName(f) => FieldEntry::Known { num: 27, field: f@ },
            DeviceInfo::Unknown { data, field_def_num } => FieldEntry::Unknown { num: *field_def_num, data: data@ },
        }
    }

    /// Decodes the byte run `buffer` of field `field_def_num` of this message.
    pub fn decode(buffer: &[u8], field_def_num: u8, endian: Endian) -> (r: Result<Self, Error>)
        ensures
            match r {
                Ok(m) => decode_entry(Self::profile(field_def_num), field_def_num, buffer@, endian)
                    == Ok::<FieldEntry, Error>(m.entry()),
                Err(x) => decode_entry(Self::profile(field_def_num), field_def_num, buffer@, endian)
                    == Err::<FieldEntry, Error>(x),
            },
    {
        match field_def_num {
            253 => match decode_field(buffer, endian, FieldProfile { base: BaseType::Uint32, profile_type: Some(ProfileType::DateTime), scale: None, offset: None, units: Some("s") }) {
                Ok(f) => Ok(DeviceInfo::Timestamp(f)),
                Err(x) => Err(x),
            },
            0 => match decode_field(buffer, endian, FieldProfile { base: BaseType::Uint8, profile_type: Some(ProfileType::DeviceIndex), scale: None, offset: None, units: None }) {
                Ok(f) => Ok(DeviceInfo::DeviceIndex(f)),
                Err(x) => Err(x),
            },
            1 => match decode_field(buffer, endian, FieldProfile { base: BaseType::Uint8, profile_type: None, scale: None, offset: None, units: None }) {
                Ok(f) => Ok(DeviceInfo::DeviceType(f)),
                Err(x) => Err(x),
            },
            2 => match decode_field(buffer, endian, FieldProfile { base: BaseType::Uint16, profile_type: Some(ProfileType::Manufacturer), scale: None, offset: None, units: None }) {
                Ok(f) => Ok(DeviceInfo::Manufacturer(f)),
                Err(x) => Err(x),
            },
            3 => match decode_field(buffer, endian, FieldProfile { base: BaseType::Uint32z, profile_type: None, scale: None, offset: None, units: None }) {
                Ok(f) => Ok(DeviceInfo::SerialNumber(f)),
                Err(x) => Err(x),
            },
            4 => match decode_field(buffer, endian, FieldProfile { base: BaseType::Uint16, profile_type: None, scale: None, offset: None, units: None }) {
                Ok(f) => Ok(DeviceInfo::Product(f)),
                Err(x) => Err(x),
            },
            5 => match decode_field(buffer, endian, FieldProfile { base: BaseType::Uint16, profile_type: None, scale: Some(Scale { num: 100, den: 1 }), offset: None, units: None }) {
                Ok(f) => Ok(DeviceInfo::SoftwareVersion(f)),
                Err(x) => Err(x),
            },
            6 => match decode_field(buffer, endian, FieldProfile { base: BaseType::Uint8, profile_type: None, scale: None, offset: None, units: None }) {
                Ok(f) => Ok(DeviceInfo::HardwareVersion(f)),
                Err(x) => Err(x),
            },
            7 => match decode_field(buffer, endian, FieldProfile { base: BaseType::Uint32, profile_type: None, scale: None, offset: None, units: Some("s") }) {
                Ok(f) => Ok(DeviceInfo::CumOperatingTime(f)),
                Err(x) => Err(x),
            },
            10 => match decode_field(buffer, endian, FieldProfile { base: BaseType::Uint16, profile_type: None, scale: Some(Scale { num: 256, den: 1 }), offset: None, units: Some("V") }) {
                Ok(f) => Ok(DeviceInfo::BatteryVoltage(f)),
                Err(x) => Err(x),
            },
            11 => match decode_field(buffer, endian, FieldProfile { base: BaseType::Uint8, profile_type: Some(ProfileType::BatteryStatus), scale: None, offset: None, units: None }) {
                Ok(f) => Ok(DeviceInfo::BatteryStatus(f)),
                Err(x) => Err(x),
            },
            18 => match decode_field(buffer, endian, FieldProfile { base: BaseType::Enum, profile_type: Some(ProfileType::BodyLocation), scale: None, offset: None, units: None }) {
                Ok(f) => Ok(DeviceInfo::SensorPosition(f)),
                Err(x) => Err(x),
            },
            19 => match decode_field(buffer, endian, FieldProfile { base: BaseType::Utf8String, profile_type: None, scale: None, offset: None, units: None }) {
                Ok(f) => Ok(DeviceInfo::Descriptor(f)),
                Err(x) => Err(x),
            },
            20 => match decode_field(buffer, endian, FieldProfile { base: BaseType::Uint8z, profile_type: None, scale: None, offset: None, units: None }) {
                Ok(f) => Ok(DeviceInfo::AntTransmissionType(f)),
                Err(x) => Err(x),
            },
            21 => match decode_field(buffer, endian, FieldProfile { base: BaseType::Uint16z, profile_type: None, scale: None, offset: None, units: None }) {
                Ok(f) => Ok(DeviceInfo::AntDeviceNumber(f)),
                Err(x) => Err(x),
            },
            22 => match decode_field(buffer, endian, FieldProfile { base: BaseType::Enum, profile_type: Some(ProfileType::AntNetwork), scale: None, offset: None, units: None }) {
                Ok(f) => Ok(DeviceInfo::AntNetwork(f)),
                Err(x) => Err(x),
            },
            25 => match decode_field(buffer, endian, FieldProfile { base: BaseType::Enum, profile_type: Some(ProfileType::SourceType), scale: None, offset: None, units: None }) {
                Ok(f) => Ok(DeviceInfo::SourceType(f)),
                Err(x) => Err(x),
            },
            27 => match decode_field(buffer, endian, FieldProfile { base: BaseType::Utf8String, profile_type: None, scale: None, offset: None, units: None }) {
                Ok(f) => Ok(DeviceInfo::ProductName(f)),
                Err(x) => Err(x),
            },
            _ => Ok(DeviceInfo::Unknown { data: slice_to_vec(buffer), field_def_num }),
        }
    }
}

/// Corresponds to file_id of workout or course.
#[derive(Debug, Clone)]
pub enum TrainingFile {
    Timestamp(Field),
    Type(Field),
    Manufacturer(Field),
    Product(Field),
    SerialNumber(Field),
    TimeCreated(Field),
    Unknown { data: Vec<u8>, field_def_num: u8 },
}

impl TrainingFile {
    /// The profile entry of each field of this message.
    pub open spec fn profile(field_def_num: u8) -> Option<FieldProfile> {
        match field_def_num {
            253 => Some(FieldProfile { base: BaseType::Uint32, profile_type: Some(ProfileType::DateTime), scale: None, offset: None, units: None }),
            0 => Some(FieldProfile { base: BaseType::Enum, profile_type: Some(ProfileType::File), scale: None, offset: None, units: None }),
            1 => Some(FieldProfile { base: BaseType::Uint16, profile_type: Some(ProfileType::Manufacturer), scale: None, offset: None, units: None }),
            2 => Some(FieldProfile { base: BaseType::Uint16, profile_type: None, scale: None, offset: None, units: None }),
            3 => Some(FieldProfile { base: BaseType::Uint32z, profile_type: None, scale: None, offset: None, units: None }),
            4 => Some(FieldProfile { base: BaseType::Uint32, profile_type: Some(ProfileType::DateTime), scale: None, offset: None, units: None }),
            _ => None,
        }
    }

    /// The field this value holds.
    pub open spec fn entry(&self) -> FieldEntry {
        match self {
            TrainingFile::Timestamp(f) => FieldEntry::Known { num: 253, field: f@ },
            TrainingFile::Type(f) => FieldEntry::Known { num: 0, field: f@ },
            TrainingFile::Manufacturer(f) => FieldEntry::Known { num: 1, field: f@ },
            TrainingFile::Product(f) => FieldEntry::Known { num: 2, field: f@ },
            TrainingFile::SerialNumber(f) => FieldEntry::Known { num: 3, field: f@ },
            TrainingFile::TimeCreated(f) => FieldEntry::Known { num: 4, field: f@ },
            TrainingFile::Unknown { data, field_def_num } => FieldEntry::Unknown { num: *field_def_num, data: data@ },
        }
    }

    /// Decodes the byte run `buffer` of field `field_def_num` of this message.
    pub fn decode(buffer: &[u8], field_def_num: u8, endian: Endian) -> (r: Result<Self, Error>)
        ensures
            match r {
                Ok(m) => decode_entry(Self::profile(field_def_num), field_def_num, buffer@, endian)
                    == Ok::<FieldEntry, Error>(m.entry()),
                Err(x) => decode_entry(Self::profile(field_def_num), field_def_num, buffer@, endian)
                    == Err::<FieldEntry, Error>(x),
            },
    {
        match field_def_num {
            253 => match decode_field(buffer, endian, FieldProfile { base: BaseType::Uint32, profile_type: Some(ProfileType::DateTime), scale: None, offset: None, units: None }) {
                Ok(f) => Ok(TrainingFile::Timestamp(f)),
                Err(x) => Err(x),
            },
            0 => match decode_field(buffer, endian, FieldProfile { base: BaseType::Enum, profile_type: Some(ProfileType::File), scale: None, offset: None, units: None }) {
                Ok(f) => Ok(TrainingFile::Type(f)),
                Err(x) => Err(x),
            },
            1 => match decode_field(buffer, endian, FieldProfile { base: BaseType::Uint16, profile_type: Some(ProfileType::Manufacturer), scale: None, offset: None, units: None }) {
                Ok(f) => Ok(TrainingFile::Manufacturer(f)),
                Err(x) => Err(x),
            },
            2 => match decode_field(buffer, endian, FieldProfile { base: BaseType::Uint16, profile_type: None, scale: None, offset: None, units: None }) {
                Ok(f) => Ok(TrainingFile::Product(f)),
                Err(x) => Err(x),
            },
            3 => match decode_field(buffer, endian, FieldProfile { base: BaseType::Uint32z, profile_type: None, scale: None, offset: None, units: None }) {
                Ok(f) => Ok(TrainingFile::SerialNumber(f)),
                Err(x) => Err(x),
            },
            4 => match decode_field(buffer, endian, FieldProfile { base: BaseType::Uint32, profile_type: Some(ProfileType::DateTime), scale: None, offset: None, units: None }) {
                Ok(f) => Ok(TrainingFile::TimeCreated(f)),
                Err(x) => Err(x),
            },
            _ => Ok(TrainingFile::Unknown { data: slice_to_vec(buffer), field_def_num }),
        }
    }
}

/// Heart rate variability
#[derive(Debug, Clone)]
pub enum Hrv {
    /// Time between beats
    Time(Field),
    Unknown { data: Vec<u8>, field_def_num: u8 },
}

impl Hrv {
    /// The profile entry of each field of this message.
    pub open spec fn profile(field_def_num: u8) -> Option<FieldProfile> {
        match field_def_num {
            0 => Some(FieldProfile { base: BaseType::Uint16, profile_type: None, scale: Some(Scale { num: 1000, den: 1 }), offset: None, units: Some("s") }),
            _ => None,
        }
    }

    /// The field this value holds.
    pub open spec fn entry(&self) -> FieldEntry {
        match self {
            Hrv::Time(f) => FieldEntry::Known { num: 0, field: f@ },
            Hrv::Unknown { data, field_def_num } => FieldEntry::Unknown { num: *field_def_num, data: data@ },
        }
    }

    /// Decodes the byte run `buffer` of field `field_def_num` of this message.
    pub fn decode(buffer: &[u8], field_def_num: u8, endian: Endian) -> (r: Result<Self, Error>)
        ensures
            match r {
                Ok(m) => decode_entry(Self::profile(field_def_num), field_def_num, buffer@, endian)
                    == Ok::<FieldEntry, Error>(m.entry()),
                Err(x) => decode_entry(Self::profile(field_def_num), field_def_num, buffer@, endian)
                    == Err::<FieldEntry, Error>(x),
            },
    {
        match field_def_num {
            0 => match decode_field(buffer, endian, FieldProfile { base: BaseType::Uint16, profile_type: None, scale: Some(Scale { num: 1000, den: 1 }), offset: None, units: Some("s") }) {
                Ok(f) => Ok(Hrv::Time(f)),
                Err(x) => Err(x),
            },
            _ => Ok(Hrv::Unknown { data: slice_to_vec(buffer), field_def_num }),
        }
    }
}

#[derive(Debug, Clone)]
pub enum WeatherConditions {
    /// time of update for current conditions, else forecast time
    Timestamp(Field),
    /// Current or forecast
    WeatherReport(Field),
    Temperature(Field),
    /// Corresponds to GSC Response weatherIcon field
    Condition(Field),
    WindDirection(Field),
    WindSpeed(Field),
    /// range 0-100
    PrecipitationProbability(Field),
    /// Heat Index if  GCS heatIdx above or equal to 90F or wind chill if GCS windChill below or equal to 32F
    TemperatureFeelsLike(Field),
    RelativeHumidity(Field),
    /// string corresponding to GCS response location string
    Location(Field),
    ObservedAtTime(Field),
    ObservedLocationLat(Field),
    ObservedLocationLong(Field),
    DayOfWeek(Field),
    HighTemperature(Field),
    LowTemperature(Field),
    Unknown { data: Vec<u8>, field_def_num: u8 },
}

impl WeatherConditions {
    /// The profile entry of each field of this message.
    pub open spec fn profile(field_def_num: u8) -> Option<FieldProfile> {
        match field_def_num {
            253 => Some(FieldProfile { base: BaseType::Uint32, profile_type: Some(ProfileType::DateTime), scale: None, offset: None, units: None }),
            0 => Some(FieldProfile { base: BaseType::Enum, profile_type: Some(ProfileType::WeatherReport), scale: None, offset: None, units: None }),
            1 => Some(FieldProfile { base: BaseType::Sint8, profile_type: None, scale: None, offset: None, units: Some("C") }),
            2 => Some(FieldProfile { base: BaseType::Enum, profile_type: Some(ProfileType::WeatherStatus), scale: None, offset: None, units: None }),
            3 => Some(FieldProfile { base: BaseType::Uint16, profile_type: None, scale: None, offset: None, units: Some("degrees") }),
            4 => Some(FieldProfile { base: BaseType::Uint16, profile_type: None, scale: Some(Scale { num: 1000, den: 1 }), offset: None, units: Some("m/s") }),
            5 => Some(FieldProfile { base: BaseType::Uint8, profile_type: None, scale: None, offset: None, units: None }),
            6 => Some(FieldProfile { base: BaseType::Sint8, profile_type: None, scale: None, offset: None, units: Some("C") }),
            7 => Some(FieldProfile { base: BaseType::Uint8, profile_type: None, scale: None, offset: None, units: None }),
            8 => Some(FieldProfile { base: BaseType::Utf8String, profile_type: None, scale: None, offset: None, units: None }),
            9 => Some(FieldProfile { base: BaseType::Uint32, profile_type: Some(ProfileType::DateTime), scale: None, offset: None, units: None }),
            10 => Some(FieldProfile { base: BaseType::Sint32, profile_type: None, scale: None, offset: None, units: Some("semicircles") }),
            11 => Some(FieldProfile { base: BaseType::Sint32, profile_type: None, scale: None, offset: None, units: Some("semicircles") }),
            12 => Some(FieldProfile { base: BaseType::Enum, profile_type: Some(ProfileType::DayOfWeek), scale: None, offset: None, units: None }),
            13 => Some(FieldProfile { base: BaseType::Sint8, profile_type: None, scale: None, offset: None, units: Some("C") }),
            14 => Some(FieldProfile { base: BaseType::Sint8, profile_type: None, scale: None, offset: None, units: Some("C") }),
            _ => None,
        }
    }

    /// The field this value holds.
    pub open spec fn entry(&self) -> FieldEntry {
        match self {
            WeatherConditions::Timestamp(f) => FieldEntry::Known { num: 253, field: f@ },
            WeatherConditions::WeatherReport(f) => FieldEntry::Known { num: 0, field: f@ },
            WeatherConditions::Temperature(f) => FieldEntry::Known { num: 1, field: f@ },
            WeatherConditions::Condition(f) => FieldEntry::Known { num: 2, field: f@ },
            WeatherConditions::WindDirection(f) => FieldEntry::Known { num: 3, field: f@ },
            WeatherConditions::WindSpeed(f) => FieldEntry::Known { num: 4, field: f@ },
            WeatherConditions::PrecipitationProbability(f) => FieldEntry::Known { num: 5, field: f@ },
            WeatherConditions::TemperatureFeelsLike(f) => FieldEntry::Known { num: 6, field: f@ },
            WeatherConditions::RelativeHumidity(f) => FieldEntry::Known { num: 7, field: f@ },
            WeatherConditions::Location(f) => FieldEntry::Known { num: 8, field: f@ },
            WeatherConditions::ObservedAtTime(f) => FieldEntry::Known { num: 9, field: f@ },
            WeatherConditions::ObservedLocationLat(f) => FieldEntry::Known { num: 10, field: f@ },
            WeatherConditions::ObservedLocationLong(f) => FieldEntry::Known { num: 11, field: f@ },
            WeatherConditions::DayOfWeek(f) => FieldEntry::Known { num: 12, field: f@ },
            WeatherConditions::HighTemperature(f) => FieldEntry::Known { num: 13, field: f@ },
            WeatherConditions::LowTemperature(f) => FieldEntry::Known { num: 14, field: f@ },
            WeatherConditions::Unknown { data, field_def_num } => FieldEntry::Unknown { num: *field_def_num, data: data@ },
        }
    }

    /// Decodes the byte run `buffer` of field `field_def_num` of this message.
    pub fn decode(buffer: &[u8], field_def_num: u8, endian: Endian) -> (r: Result<Self, Error>)
        ensures
            match r {
                Ok(m) => decode_entry(Self::profile(field_def_num), field_def_num, buffer@, endian)
                    == Ok::<FieldEntry, Error>(m.entry()),
                Err(x) => decode_entry(Self::profile(field_def_num), field_def_num, buffer@, endian)
                    == Err::<FieldEntry, Error>(x),
            },
    {
        match field_def_num {
            253 => match decode_field(buffer, endian, FieldProfile { base: BaseType::Uint32, profile_type: Some(ProfileType::DateTime), scale: None, offset: None, units: None }) {
                Ok(f) => Ok(WeatherConditions::Timestamp(f)),
                Err(x) => Err(x),
            },
            0 => match decode_field(buffer, endian, FieldProfile { base: BaseType::Enum, profile_type: Some(ProfileType::WeatherReport), scale: None, offset: None, units: None }) {
                Ok(f) => Ok(WeatherConditions::WeatherReport(f)),
                Err(x) => Err(x),
            },
            1 => match decode_field(buffer, endian, FieldProfile { base: BaseType::Sint8, profile_type: None, scale: None, offset: None, units: Some("C") }) {
                Ok(f) => Ok(WeatherConditions::Temperature(f)),
                Err(x) => Err(x),
            },
            2 => match decode_field(buffer, endian, FieldProfile { base: BaseType::Enum, profile_type: Some(ProfileType::WeatherStatus), scale: None, offset: None, units: None }) {
                Ok(f) => Ok(WeatherConditions::Condition(f)),
                Err(x) => Err(x),
            },
            3 => match decode_field(buffer, endian, FieldProfile { base: BaseType::Uint16, profile_type: None, scale: None, offset: None, units: Some("degrees") }) {
                Ok(f) => Ok(WeatherConditions::WindDirection(f)),
                Err(x) => Err(x),
            },
            4 => match decode_field(buffer, endian, FieldProfile { base: BaseType::Uint16, profile_type: None, scale: Some(Scale { num: 1000, den: 1 }), offset: None, units: Some("m/s") }) {
                Ok(f) => Ok(WeatherConditions::WindSpeed(f)),
                Err(x) => Err(x),
            },
            5 => match decode_field(buffer, endian, FieldProfile { base: BaseType::Uint8, profile_type: None, scale: None, offset: None, units: None }) {
                Ok(f) => Ok(WeatherConditions::PrecipitationProbability(f)),
                Err(x) => Err(x),
            },
            6 => match decode_field(buffer, endian, FieldProfile { base: BaseType::Sint8, profile_type: None, scale: None, offset: None, units: Some("C") }) {
                Ok(f) => Ok(WeatherConditions::TemperatureFeelsLike(f)),
                Err(x) => Err(x),
            },
            7 => match decode_field(buffer, endian, FieldProfile { base: BaseType::Uint8, profile_type: None, scale: None, offset: None, units: None }) {
                Ok(f) => Ok(WeatherConditions::RelativeHumidity(f)),
                Err(x) => Err(x),
            },
            8 => match decode_field(buffer, endian, FieldProfile { base: BaseType::Utf8String, profile_type: None, scale: None, offset: None, units: None }) {
                Ok(f) => Ok(WeatherConditions::Location(f)),
                Err(x) => Err(x),
            },
            9 => match decode_field(buffer, endian, FieldProfile { base: BaseType::Uint32, profile_type: Some(ProfileType::DateTime), scale: None, offset: None, units: None }) {
                Ok(f) => Ok(WeatherConditions::ObservedAtTime(f)),
                Err(x) => Err(x),
            },
            10 => match decode_field(buffer, endian, FieldProfile { base: BaseType::Sint32, profile_type: None, scale: None, offset: None, units: Some("semicircles") }) {
                Ok(f) => Ok(WeatherConditions::ObservedLocationLat(f)),
                Err(x) => Err(x),
            },
            11 => match decode_field(buffer, endian, FieldProfile { base: BaseType::Sint32, profile_type: None, scale: None, offset: None, units: Some("semicircles") }) {
                Ok(f) => Ok(WeatherConditions::ObservedLocationLong(f)),
                Err(x) => Err(x),
            },
            12 => match decode_field(buffer, endian, FieldProfile { base: BaseType::Enum, profile_type: Some(ProfileType::DayOfWeek), scale: None, offset: None, units: None }) {
                Ok(f) => Ok(WeatherConditions::DayOfWeek(f)),
                Err(x) => Err(x),
            },
            13 => match decode_field(buffer, endian, FieldProfile { base: BaseType::Sint8, profile_type: None, scale: None, offset: None, units: Some("C") }) {
                Ok(f) => Ok(WeatherConditions::HighTemperature(f)),
                Err(x) => Err(x),
            },
            14 => match decode_field(buffer, endian, FieldProfile { base: BaseType::Sint8, profile_type: None, scale: None, offset: None, units: Some("C") }) {
                Ok(f) => Ok(WeatherConditions::LowTemperature(f)),
                Err(x) => Err(x),
            },
            _ => Ok(WeatherConditions::Unknown { data: slice_to_vec(buffer), field_def_num }),
        }
    }
}

#[derive(Debug, Clone)]
pub enum WeatherAlert {
    Timestamp(Field),
    /// Unique identifier from GCS report ID string, length is 12
    ReportId(Field),
    /// Time alert was issued
    IssueTime(Field),
    /// Time alert expires
    ExpireTime(Field),
    /// Warning, Watch, Advisory, Statement
    Severity(Field),
    /// Tornado, Severe Thunderstorm, etc.
    Type(Field),
    Unknown { data: Vec<u8>, field_def_num: u8 },
}

impl WeatherAlert {
    /// The profile entry of each field of this message.
    pub open spec fn profile(field_def_num: u8) -> Option<FieldProfile> {
        match field_def_num {
            253 => Some(FieldProfile { base: BaseType::Uint32, profile_type: Some(ProfileType::DateTime), scale: None, offset: None, units: None }),
            0 => Some(FieldProfile { base: BaseType::Utf8String, profile_type: None, scale: None, offset: None, units: None }),
            1 => Some(FieldProfile { base: BaseType::Uint32, profile_type: Some(ProfileType::DateTime), scale: None, offset: None, units: None }),
            2 => Some(FieldProfile { base: BaseType::Uint32, profile_type: Some(ProfileType::DateTime), scale: None, offset: None, units: None }),
            3 => Some(FieldProfile { base: BaseType::Enum, profile_type: Some(ProfileType::WeatherSeverity), scale: None, offset: None, units: None }),
            4 => Some(FieldProfile { base: BaseType::Enum, profile_type: Some(ProfileType::WeatherSevereType), scale: None, offset: None, units: None }),
            _ => None,
        }
    }

    /// The field this value holds.
    pub open spec fn entry(&self) -> FieldEntry {
        match self {
            WeatherAlert::Timestamp(f) => FieldEntry::Known { num: 253, field: f@ },
            WeatherAlert::ReportId(f) => FieldEntry::Known { num: 0, field: f@ },
            WeatherAlert::IssueTime(f) => FieldEntry::Known { num: 1, field: f@ },
            WeatherAlert::ExpireTime(f) => FieldEntry::Known { num: 2, field: f@ },
            WeatherAlert::Severity(f) => FieldEntry::Known { num: 3, field: f@ },
            WeatherAlert::Type(f) => FieldEntry::Known { num: 4, field: f@ },
            WeatherAlert::Unknown { data, field_def_num } => FieldEntry::Unknown { num: *field_def_num, data: data@ },
        }
    }

    /// Decodes the byte run `buffer` of field `field_def_num` of this message.
    pub fn decode(buffer: &[u8], field_def_num: u8, endian: Endian) -> (r: Result<Self, Error>)
        ensures
            match r {
                Ok(m) => decode_entry(Self::profile(field_def_num), field_def_num, buffer@, endian)
                    == Ok::<FieldEntry, Error>(m.entry()),
                Err(x) => decode_entry(Self::profile(field_def_num), field_def_num, buffer@, endian)
                    == Err::<FieldEntry, Error>(x),
            },
    {
        match field_def_num {
            253 => match decode_field(buffer, endian, FieldProfile { base: BaseType::Uint32, profile_type: Some(ProfileType::DateTime), scale: None, offset: None, units: None }) {
                Ok(f) => Ok(WeatherAlert::Timestamp(f)),
                Err(x) => Err(x),
            },
            0 => match decode_field(buffer, endian, FieldProfile { base: BaseType::Utf8String, profile_type: None, scale: None, offset: None, units: None }) {
                Ok(f) => Ok(WeatherAlert::ReportId(f)),
                Err(x) => Err(x),
            },
            1 => match decode_field(buffer, endian, FieldProfile { base: BaseType::Uint32, profile_type: Some(ProfileType::DateTime), scale: None, offset: None, units: None }) {
                Ok(f) => Ok(WeatherAlert::IssueTime(f)),
                Err(x) => Err(x),
            },
            2 => match decode_field(buffer, endian, FieldProfile { base: BaseType::Uint32, profile_type: Some(ProfileType::DateTime), scale: None, offset: None, units: None }) {
                Ok(f) => Ok(WeatherAlert::ExpireTime(f)),
                Err(x) => Err(x),
            },
            3 => match decode_field(buffer, endian, FieldProfile { base: BaseType::Enum, profile_type: Some(ProfileType::WeatherSeverity), scale: None, offset: None, units: None }) {
                Ok(f) => Ok(WeatherAlert::Severity(f)),
                Err(x) => Err(x),
            },
            4 => match decode_field(buffer, endian, FieldProfile { base: BaseType::Enum, profile_type: Some(ProfileType::WeatherSevereType), scale: None, offset: None, units: None }) {
                Ok(f) => Ok(WeatherAlert::Type(f)),
                Err(x) => Err(x),
            },
            _ => Ok(WeatherAlert::Unknown { data: slice_to_vec(buffer), field_def_num }),
        }
    }
}

#[derive(Debug, Clone)]
pub enum GpsMetadata {
    /// Whole second part of the timestamp.
    Timestamp(Field),
    /// Millisecond part of the timestamp.
    TimestampMs(Field),
    PositionLat(Field),
    PositionLong(Field),
    EnhancedAltitude(Field),
    EnhancedSpeed(Field),
    Heading(Field),
    /// Used to correlate UTC to system time if the timestamp of the message is in system time.  This UTC time is derived from the GPS data.
    UtcTimestamp(Field),
    /// velocity\\[0\\] is lon velocity.  Velocity\\[1\\] is lat velocity.  Velocity\\[2\\] is altitude velocity.
    Velocity(Field),
    Unknown { data: Vec<u8>, field_def_num: u8 },
}

impl GpsMetadata {
    /// The profile entry of each field of this message.
    pub open spec fn profile(field_def_num: u8) -> Option<FieldProfile> {
        match field_def_num {
            253 => Some(FieldProfile { base: BaseType::Uint32, profile_type: Some(ProfileType::DateTime), scale: None, offset: None, units: Some("s") }),
            0 => Some(FieldProfile { base: BaseType::Uint16, profile_type: None, scale: None, offset: None, units: Some("ms") }),
            1 => Some(FieldProfile { base: BaseType::Sint32, profile_type: None, scale: None, offset: None, units: Some("semicircles") }),
            2 => Some(FieldProfile { base: BaseType::Sint32, profile_type: None, scale: None, offset: None, units: Some("semicircles") }),
            3 => Some(FieldProfile { base: BaseType::Uint32, profile_type: None, scale: Some(Scale { num: 5, den: 1 }), offset: Some(500), units: Some("m") }),
            4 => Some(FieldProfile { base: BaseType::Uint32, profile_type: None, scale: Some(Scale { num: 1000, den: 1 }), offset: None, units: Some("m/s") }),
            5 => Some(FieldProfile { base: BaseType::Uint16, profile_type: None, scale: Some(Scale { num: 100, den: 1 }), offset: None, units: Some("degrees") }),
            6 => Some(FieldProfile { base: BaseType::Uint32, profile_type: Some(ProfileType::DateTime), scale: None, offset: None, units: Some("s") }),
            7 => Some(FieldProfile { base: BaseType::Sint16, profile_type: None, scale: Some(Scale { num: 100, den: 1 }), offset: None, units: Some("m/s") }),
            _ => None,
        }
    }

    /// The field this value holds.
    pub open spec fn entry(&self) -> FieldEntry {
        match self {
            GpsMetadata::Timestamp(f) => FieldEntry::Known { num: 253, field: f@ },
            GpsMetadata::TimestampMs(f) => FieldEntry::Known { num: 0, field: f@ },
            GpsMetadata::PositionLat(f) => FieldEntry::Known { num: 1, field: f@ },
            GpsMetadata::PositionLong(f) => FieldEntry::Known { num: 2, field: f@ },
            GpsMetadata::EnhancedAltitude(f) => FieldEntry::Known { num: 3, field: f@ },
            GpsMetadata::EnhancedSpeed(f) => FieldEntry::Known { num: 4, field: f@ },
            GpsMetadata::Heading(f) => FieldEntry::Known { num: 5, field: f@ },
            GpsMetadata::UtcTimestamp(f) => FieldEntry::Known { num: 6, field: f@ },
            GpsMetadata::Velocity(f) => FieldEntry::Known { num: 7, field: f@ },
            GpsMetadata::Unknown { data, field_def_num } => FieldEntry::Unknown { num: *field_def_num, data: data@ },
        }
    }

    /// Decodes the byte run `buffer` of field `field_def_num` of this message.
    pub fn decode(buffer: &[u8], field_def_num: u8, endian: Endian) -> (r: Result<Self, Error>)
        ensures
            match r {
                Ok(m) => decode_entry(Self::profile(field_def_num), field_def_num, buffer@, endian)
                    == Ok::<FieldEntry, Error>(m.entry()),
                Err(x) => decode_entry(Self::profile(field_def_num), field_def_num, buffer@, endian)
                    == Err::<FieldEntry, Error>(x),
            },
    {
        match field_def_num {
            253 => match decode_field(buffer, endian, FieldProfile { base: BaseType::Uint32, profile_type: Some(ProfileType::DateTime), scale: None, offset: None, units: Some("s") }) {
                Ok(f) => Ok(GpsMetadata::Timestamp(f)),
                Err(x) => Err(x),
            },
            0 => match decode_field(buffer, endian, FieldProfile { base: BaseType::Uint16, profile_type: None, scale: None, offset: None, units: Some("ms") }) {
                Ok(f) => Ok(GpsMetadata::TimestampMs(f)),
                Err(x) => Err(x),
            },
            1 => match decode_field(buffer, endian, FieldProfile { base: BaseType::Sint32, profile_type: None, scale: None, offset: None, units: Some("semicircles") }) {
                Ok(f) => Ok(GpsMetadata::PositionLat(f)),
                Err(x) => Err(x),
            },
            2 => match decode_field(buffer, endian, FieldProfile { base: BaseType::Sint32, profile_type: None, scale: None, offset: None, units: Some("semicircles") }) {
                Ok(f) => Ok(GpsMetadata::PositionLong(f)),
                Err(x) => Err(x),
            },
            3 => match decode_field(buffer, endian, FieldProfile { base: BaseType::Uint32, profile_type: None, scale: Some(Scale { num: 5, den: 1 }), offset: Some(500), units: Some("m") }) {
                Ok(f) => Ok(GpsMetadata::EnhancedAltitude(f)),
                Err(x) => Err(x),
            },
            4 => match decode_field(buffer, endian, FieldProfile { base: BaseType::Uint32, profile_type: None, scale: Some(Scale { num: 1000, den: 1 }), offset: None, units: Some("m/s") }) {
                Ok(f) => Ok(GpsMetadata::EnhancedSpeed(f)),
                Err(x) => Err(x),
            },
            5 => match decode_field(buffer, endian, FieldProfile { base: BaseType::Uint16, profile_type: None, scale: Some(Scale { num: 100, den: 1 }), offset: None, units: Some("degrees") }) {
                Ok(f) => Ok(GpsMetadata::Heading(f)),
                Err(x) => Err(x),
            },
            6 => match decode_field(buffer, endian, FieldProfile { base: BaseType::Uint32, profile_type: Some(ProfileType::DateTime), scale: None, offset: None, units: Some("s") }) {
                Ok(f) => Ok(GpsMetadata::UtcTimestamp(f)),
                Err(x) => Err(x),
            },
            7 => match decode_field(buffer, endian, FieldProfile { base: BaseType::Sint16, profile_type: None, scale: Some(Scale { num: 100, den: 1 }), offset: None, units: Some("m/s") }) {
                Ok(f) => Ok(GpsMetadata::Velocity(f)),
                Err(x) => Err(x),
            },
            _ => Ok(GpsMetadata::Unknown { data: slice_to_vec(buffer), field_def_num }),
        }
    }
}

#[derive(Debug, Clone)]
pub enum CameraEvent {
    /// Whole second part of the timestamp.
    Timestamp(Field),
    /// Millisecond part of the timestamp.
    TimestampMs(Field),
    CameraEventType(Field),
    CameraFileUuid(Field),
    CameraOrientation(Field),
    Unknown { data: Vec<u8>, field_def_num: u8 },
}

impl CameraEvent {
    /// The profile entry of each field of this message.
    pub open spec fn profile(field_def_num: u8) -> Option<FieldProfile> {
        match field_def_num {
            253 => Some(FieldProfile { base: BaseType::Uint32, profile_type: Some(ProfileType::DateTime), scale: None, offset: None, units: Some("s") }),
            0 => Some(FieldProfile { base: BaseType::Uint16, profile_type: None, scale: None, offset: None, units: Some("ms") }),
            1 => Some(FieldProfile { base: BaseType::Enum, profile_type: Some(ProfileType::CameraEventType), scale: None, offset: None, units: None }),
            2 => Some(FieldProfile { base: BaseType::Utf8String, profile_type: None, scale: None, offset: None, units: None }),
            3 => Some(FieldProfile { base: BaseType::Enum, profile_type: Some(ProfileType::CameraOrientationType), scale: None, offset: None, units: None }),
            _ => None,
        }
    }

    /// The field this value holds.
    pub open spec fn entry(&self) -> FieldEntry {
        match self {
            CameraEvent::Timestamp(f) => FieldEntry::Known { num: 253, field: f@ },
            CameraEvent::TimestampMs(f) => FieldEntry::Known { num: 0, field: f@ },
            CameraEvent::CameraEventType(f) => FieldEntry::Known { num: 1, field: f@ },
            CameraEvent::CameraFileUuid(f) => FieldEntry::Known { num: 2, field: f@ },
            CameraEvent::CameraOrientation(f) => FieldEntry::Known { num: 3, field: f@ },
            CameraEvent::Unknown { data, field_def_num } => FieldEntry::Unknown { num: *field_def_num, data: data@ },
        }
    }

    /// Decodes the byte run `buffer` of field `field_def_num` of this message.
    pub fn decode(buffer: &[u8], field_def_num: u8, endian: Endian) -> (r: Result<Self, Error>)
        ensures
            match r {
                Ok(m) => decode_entry(Self::profile(field_def_num), field_def_num, buffer@, endian)
                    == Ok::<FieldEntry, Error>(m.entry()),
                Err(x) => decode_entry(Self::profile(field_def_num), field_def_num, buffer@, endian)
                    == Err::<FieldEntry, Error>(x),
            },
    {
        match field_def_num {
            253 => match decode_field(buffer, endian, FieldProfile { base: BaseType::Uint32, profile_type: Some(ProfileType::DateTime), scale: None, offset: None, units: Some("s") }) {
                Ok(f) => Ok(CameraEvent::Timestamp(f)),
                Err(x) => Err(x),
            },
            0 => match decode_field(buffer, endian, FieldProfile { base: BaseType::Uint16, profile_type: None, scale: None, offset: None, units: Some("ms") }) {
                Ok(f) => Ok(CameraEvent::TimestampMs(f)),
                Err(x) => Err(x),
            },
            1 => match decode_field(buffer, endian, FieldProfile { base: BaseType::Enum, profile_type: Some(ProfileType::CameraEventType), scale: None, offset: None, units: None }) {
                Ok(f) => Ok(CameraEvent::CameraEventType(f)),
                Err(x) => Err(x),
            },
            2 => match decode_field(buffer, endian, FieldProfile { base: BaseType::Utf8String, profile_type: None, scale: None, offset: None, units: None }) {
                Ok(f) => Ok(CameraEvent::CameraFileUuid(f)),
                Err(x) => Err(x),
            },
            3 => match decode_field(buffer, endian, FieldProfile { base: BaseType::Enum, profile_type: Some(ProfileType::CameraOrientationType), scale: None, offset: None, units: None }) {
                Ok(f) => Ok(CameraEvent::CameraOrientation(f)),
                Err(x) => Err(x),
            },
            _ => Ok(CameraEvent::Unknown { data: slice_to_vec(buffer), field_def_num }),
        }
    }
}

#[derive(Debug, Clone)]
pub enum GyroscopeData {
    /// Whole second part of the timestamp
    Timestamp(Field),
    /// Millisecond part of the timestamp.
    TimestampMs(Field),
    /// Each time in the array describes the time at which the gyro sample with the corrosponding index was taken. Limited to 30 samples in each message. The samples may span across seconds. Array size must match the number of samples in gyro_x and gyro_y and gyro_z
    SampleTimeOffset(Field),
    /// These are the raw ADC reading. Maximum number of samples is 30 in each message. The samples may span across seconds. A conversion will need to be done on this data once read.
    GyroX(Field),
    /// These are the raw ADC reading. Maximum number of samples is 30 in each message. The samples may span across seconds. A conversion will need to be done on this data once read.
    GyroY(Field),
    /// These are the raw ADC reading. Maximum number of samples is 30 in each message. The samples may span across seconds. A conversion will need to be done on this data once read.
    GyroZ(Field),
    /// Calibrated gyro reading
    CalibratedGyroX(Field),
    /// Calibrated gyro reading
    CalibratedGyroY(Field),
    /// Calibrated gyro reading
    CalibratedGyroZ(Field),
    Unknown { data: Vec<u8>, field_def_num: u8 },
}

impl GyroscopeData {
    /// The profile entry of each field of this message.
    pub open spec fn profile(field_def_num: u8) -> Option<FieldProfile> {
        match field_def_num {
            253 => Some(FieldProfile { base: BaseType::Uint32, profile_type: Some(ProfileType::DateTime), scale: None, offset: None, units: Some("s") }),
            0 => Some(FieldProfile { base: BaseType::Uint16, profile_type: None, scale: None, offset: None, units: Some("ms") }),
            1 => Some(FieldProfile { base: BaseType::Uint16, profile_type: None, scale: None, offset: None, units: Some("ms") }),
            2 => Some(FieldProfile { base: BaseType::Uint16, profile_type: None, scale: None, offset: None, units: Some("counts") }),
            3 => Some(FieldProfile { base: BaseType::Uint16, profile_type: None, scale: None, offset: None, units: Some("counts") }),
            4 => Some(FieldProfile { base: BaseType::Uint16, profile_type: None, scale: None, offset: None, units: Some("counts") }),
            5 => Some(FieldProfile { base: BaseType::Float32, profile_type: None, scale: None, offset: None, units: Some("deg/s") }),
            6 => Some(FieldProfile { base: BaseType::Float32, profile_type: None, scale: None, offset: None, units: Some("deg/s") }),
            7 => Some(FieldProfile { base: BaseType::Float32, profile_type: None, scale: None, offset: None, units: Some("deg/s") }),
            _ => None,
        }
    }

    /// The field this value holds.
    pub open spec fn entry(&self) -> FieldEntry {
        match self {
            GyroscopeData::Timestamp(f) => FieldEntry::Known { num: 253, field: f@ },
            GyroscopeData::TimestampMs(f) => FieldEntry::Known { num: 0, field: f@ },
            GyroscopeData::SampleTimeOffset(f) => FieldEntry::Known { num: 1, field: f@ },
            GyroscopeData::GyroX(f) => FieldEntry::Known { num: 2, field: f@ },
            GyroscopeData::GyroY(f) => FieldEntry::Known { num: 3, field: f@ },
            GyroscopeData::GyroZ(f) => FieldEntry::Known { num: 4, field: f@ },
            GyroscopeData::CalibratedGyroX(f) => FieldEntry::Known { num: 5, field: f@ },
            GyroscopeData::CalibratedGyroY(f) => FieldEntry::Known { num: 6, field: f@ },
            GyroscopeData::CalibratedGyroZ(f) => FieldEntry::Known { num: 7, field: f@ },
            GyroscopeData::Unknown { data, field_def_num } => FieldEntry::Unknown { num: *field_def_num, data: data@ },
        }
    }

    /// Decodes the byte run `buffer` of field `field_def_num` of this message.
    pub fn decode(buffer: &[u8], field_def_num: u8, endian: Endian) -> (r: Result<Self, Error>)
        ensures
            match r {
                Ok(m) => decode_entry(Self::profile(field_def_num), field_def_num, buffer@, endian)
                    == Ok::<FieldEntry, Error>(m.entry()),
                Err(x) => decode_entry(Self::profile(field_def_num), field_def_num, buffer@, endian)
                    == Err::<FieldEntry, Error>(x),
            },
    {
        match field_def_num {
            253 => match decode_field(buffer, endian, FieldProfile { base: BaseType::Uint32, profile_type: Some(ProfileType::DateTime), scale: None, offset: None, units: Some("s") }) {
                Ok(f) => Ok(GyroscopeData::Timestamp(f)),
                Err(x) => Err(x),
            },
            0 => match decode_field(buffer, endian, FieldProfile { base: BaseType::Uint16, profile_type: None, scale: None, offset: None, units: Some("ms") }) {
                Ok(f) => Ok(GyroscopeData::TimestampMs(f)),
                Err(x) => Err(x),
            },
            1 => match decode_field(buffer, endian, FieldProfile { base: BaseType::Uint16, profile_type: None, scale: None, offset: None, units: Some("ms") }) {
                Ok(f) => Ok(GyroscopeData::SampleTimeOffset(f)),
                Err(x) => Err(x),
            },
            2 => match decode_field(buffer, endian, FieldProfile { base: BaseType::Uint16, profile_type: None, scale: None, offset: None, units: Some("counts") }) {
                Ok(f) => Ok(GyroscopeData::GyroX(f)),
                Err(x) => Err(x),
            },
            3 => match decode_field(buffer, endian, FieldProfile { base: BaseType::Uint16, profile_type: None, scale: None, offset: None, units: Some("counts") }) {
                Ok(f) => Ok(GyroscopeData::GyroY(f)),
                Err(x) => Err(x),
            },
            4 => match decode_field(buffer, endian, FieldProfile { base: BaseType::Uint16, profile_type: None, scale: None, offset: None, units: Some("counts") }) {
                Ok(f) => Ok(GyroscopeData::GyroZ(f)),
                Err(x) => Err(x),
            },
            5 => match decode_field(buffer, endian, FieldProfile { base: BaseType::Float32, profile_type: None, scale: None, offset: None, units: Some("deg/s") }) {
                Ok(f) => Ok(GyroscopeData::CalibratedGyroX(f)),
                Err(x) => Err(x),
            },
            6 => match decode_field(buffer, endian, FieldProfile { base: BaseType::Float32, profile_type: None, scale: None, offset: None, units: Some("deg/s") }) {
                Ok(f) => Ok(GyroscopeData::CalibratedGyroY(f)),
                Err(x) => Err(x),
            },
            7 => match decode_field(buffer, endian, FieldProfile { base: BaseType::Float32, profile_type: None, scale: None, offset: None, units: Some("deg/s") }) {
                Ok(f) => Ok(GyroscopeData::CalibratedGyroZ(f)),
                Err(x) => Err(x),
            },
            _ => Ok(GyroscopeData::Unknown { data: slice_to_vec(buffer), field_def_num }),
        }
    }
}

#[derive(Debug, Clone)]
pub enum AccelerometerData {
    /// Whole second part of the timestamp
    Timestamp(Field),
    /// Millisecond part of the timestamp.
    TimestampMs(Field),
    /// Each time in the array describes the time at which the accelerometer sample with the corrosponding index was taken. Limited to 30 samples in each message. The samples may span across seconds. Array size must match the number of samples in accel_x and accel_y and accel_z
    SampleTimeOffset(Field),
    /// These are the raw ADC reading. Maximum number of samples is 30 in each message. The samples may span across seconds. A conversion will need to be done on this data once read.
    AccelX(Field),
    /// These are the raw ADC reading. Maximum number of samples is 30 in each message. The samples may span across seconds. A conversion will need to be done on this data once read.
    AccelY(Field),
    /// These are the raw ADC reading. Maximum number of samples is 30 in each message. The samples may span across seconds. A conversion will need to be done on this data once read.
    AccelZ(Field),
    /// Calibrated accel reading
    CalibratedAccelX(Field),
    /// Calibrated accel reading
    CalibratedAccelY(Field),
    /// Calibrated accel reading
    CalibratedAccelZ(Field),
    /// Calibrated accel reading
    CompressedCalibratedAccelX(Field),
    /// Calibrated accel reading
    CompressedCalibratedAccelY(Field),
    /// Calibrated accel reading
    CompressedCalibratedAccelZ(Field),
    Unknown { data: Vec<u8>, field_def_num: u8 },
}

impl AccelerometerData {
    /// The profile entry of each field of this message.
    pub open spec fn profile(field_def_num: u8) -> Option<FieldProfile> {
        match field_def_num {
            253 => Some(FieldProfile { base: BaseType::Uint32, profile_type: Some(ProfileType::DateTime), scale: None, offset: None, units: Some("s") }),
            0 => Some(FieldProfile { base: BaseType::Uint16, profile_type: None, scale: None, offset: None, units: Some("ms") }),
            1 => Some(FieldProfile { base: BaseType::Uint16, profile_type: None, scale: None, offset: None, units: Some("ms") }),
            2 => Some(FieldProfile { base: BaseType::Uint16, profile_type: None, scale: None, offset: None, units: Some("counts") }),
            3 => Some(FieldProfile { base: BaseType::Uint16, profile_type: None, scale: None, offset: None, units: Some("counts") }),
            4 => Some(FieldProfile { base: BaseType::Uint16, profile_type: None, scale: None, offset: None, units: Some("counts") }),
            5 => Some(FieldProfile { base: BaseType::Float32, profile_type: None, scale: None, offset: None, units: Some("g") }),
            6 => Some(FieldProfile { base: BaseType::Float32, profile_type: None, scale: None, offset: None, units: Some("g") }),
            7 => Some(FieldProfile { base: BaseType::Float32, profile_type: None, scale: None, offset: None, units: Some("g") }),
            8 => Some(FieldProfile { base: BaseType::Sint16, profile_type: None, scale: None, offset: None, units: Some("mG") }),
            9 => Some(FieldProfile { base: BaseType::Sint16, profile_type: None, scale: None, offset: None, units: Some("mG") }),
            10 => Some(FieldProfile { base: BaseType::Sint16, profile_type: None, scale: None, offset: None, units: Some("mG") }),
            _ => None,
        }
    }

    /// The field this value holds.
    pub open spec fn entry(&self) -> FieldEntry {
        match self {
            AccelerometerData::Timestamp(f) => FieldEntry::Known { num: 253, field: f@ },
            AccelerometerData::TimestampMs(f) => FieldEntry::Known { num: 0, field: f@ },
            AccelerometerData::SampleTimeOffset(f) => FieldEntry::Known { num: 1, field: f@ },
            AccelerometerData::AccelX(f) => FieldEntry::Known { num: 2, field: f@ },
            AccelerometerData::AccelY(f) => FieldEntry::Known { num: 3, field: f@ },
            AccelerometerData::AccelZ(f) => FieldEntry::Known { num: 4, field: f@ },
            AccelerometerData::CalibratedAccelX(f) => FieldEntry::Known { num: 5, field: f@ },
            AccelerometerData::CalibratedAccelY(f) => FieldEntry::Known { num: 6, field: f@ },
            AccelerometerData::CalibratedAccelZ(f) => FieldEntry::Known { num: 7, field: f@ },
            AccelerometerData::CompressedCalibratedAccelX(f) => FieldEntry::Known { num: 8, field: f@ },
            AccelerometerData::CompressedCalibratedAccelY(f) => FieldEntry::Known { num: 9, field: f@ },
            AccelerometerData::CompressedCalibratedAccelZ(f) => FieldEntry::Known { num: 10, field: f@ },
            AccelerometerData::Unknown { data, field_def_num } => FieldEntry::Unknown { num: *field_def_num, data: data@ },
        }
    }

    /// Decodes the byte run `buffer` of field `field_def_num` of this message.
    pub fn decode(buffer: &[u8], field_def_num: u8, endian: Endian) -> (r: Result<Self, Error>)
        ensures
            match r {
                Ok(m) => decode_entry(Self::profile(field_def_num), field_def_num, buffer@, endian)
                    == Ok::<FieldEntry, Error>(m.entry()),
                Err(x) => decode_entry(Self::profile(field_def_num), field_def_num, buffer@, endian)
                    == Err::<FieldEntry, Error>(x),
            },
    {
        match field_def_num {
            253 => match decode_field(buffer, endian, FieldProfile { base: BaseType::Uint32, profile_type: Some(ProfileType::DateTime), scale: None, offset: None, units: Some("s") }) {
                Ok(f) => Ok(AccelerometerData::Timestamp(f)),
                Err(x) => Err(x),
            },
            0 => match decode_field(buffer, endian, FieldProfile { base: BaseType::Uint16, profile_type: None, scale: None, offset: None, units: Some("ms") }) {
                Ok(f) => Ok(AccelerometerData::TimestampMs(f)),
                Err(x) => Err(x),
            },
            1 => match decode_field(buffer, endian, FieldProfile { base: BaseType::Uint16, profile_type: None, scale: None, offset: None, units: Some("ms") }) {
                Ok(f) => Ok(AccelerometerData::SampleTimeOffset(f)),
                Err(x) => Err(x),
            },
            2 => match decode_field(buffer, endian, FieldProfile { base: BaseType::Uint16, profile_type: None, scale: None, offset: None, units: Some("counts") }) {
                Ok(f) => Ok(AccelerometerData::AccelX(f)),
                Err(x) => Err(x),
            },
            3 => match decode_field(buffer, endian, FieldProfile { base: BaseType::Uint16, profile_type: None, scale: None, offset: None, units: Some("counts") }) {
                Ok(f) => Ok(AccelerometerData::AccelY(f)),
                Err(x) => Err(x),
            },
            4 => match decode_field(buffer, endian, FieldProfile { base: BaseType::Uint16, profile_type: None, scale: None, offset: None, units: Some("counts") }) {
                Ok(f) => Ok(AccelerometerData::AccelZ(f)),
                Err(x) => Err(x),
            },
            5 => match decode_field(buffer, endian, FieldProfile { base: BaseType::Float32, profile_type: None, scale: None, offset: None, units: Some("g") }) {
                Ok(f) => Ok(AccelerometerData::CalibratedAccelX(f)),
                Err(x) => Err(x),
            },
            6 => match decode_field(buffer, endian, FieldProfile { base: BaseType::Float32, profile_type: None, scale: None, offset: None, units: Some("g") }) {
                Ok(f) => Ok(AccelerometerData::CalibratedAccelY(f)),
                Err(x) => Err(x),
            },
            7 => match decode_field(buffer, endian, FieldProfile { base: BaseType::Float32, profile_type: None, scale: None, offset: None, units: Some("g") }) {
                Ok(f) => Ok(AccelerometerData::CalibratedAccelZ(f)),
                Err(x) => Err(x),
            },
            8 => match decode_field(buffer, endian, FieldProfile { base: BaseType::Sint16, profile_type: None, scale: None, offset: None, units: Some("mG") }) {
                Ok(f) => Ok(AccelerometerData::CompressedCalibratedAccelX(f)),
                Err(x) => Err(x),
            },
            9 => match decode_field(buffer, endian, FieldProfile { base: BaseType::Sint16, profile_type: None, scale: None, offset: None, units: Some("mG") }) {
                Ok(f) => Ok(AccelerometerData::CompressedCalibratedAccelY(f)),
                Err(x) => Err(x),
            },
            10 => match decode_field(buffer, endian, FieldProfile { base: BaseType::Sint16, profile_type: None, scale: None, offset: None, units: Some("mG") }) {
                Ok(f) => Ok(AccelerometerData::CompressedCalibratedAccelZ(f)),
                Err(x) => Err(x),
            },
            _ => Ok(AccelerometerData::Unknown { data: slice_to_vec(buffer), field_def_num }),
        }
    }
}

#[derive(Debug, Clone)]
pub enum MagnetometerData {
    /// Whole second part of the timestamp
    Timestamp(Field),
    /// Millisecond part of the timestamp.
    TimestampMs(Field),
    /// Each time in the array describes the time at which the compass sample with the corrosponding index was taken. Limited to 30 samples in each message. The samples may span across seconds. Array size must match the number of samples in cmps_x and cmps_y and cmps_z
    SampleTimeOffset(Field),
    /// These are the raw ADC reading. Maximum number of samples is 30 in each message. The samples may span across seconds. A conversion will need to be done on this data once read.
    MagX(Field),
    /// These are the raw ADC reading. Maximum number of samples is 30 in each message. The samples may span across seconds. A conversion will need to be done on this data once read.
    MagY(Field),
    /// These are the raw ADC reading. Maximum number of samples is 30 in each message. The samples may span across seconds. A conversion will need to be done on this data once read.
    MagZ(Field),
    /// Calibrated Magnetometer reading
    CalibratedMagX(Field),
    /// Calibrated Magnetometer reading
    CalibratedMagY(Field),
    /// Calibrated Magnetometer reading
    CalibratedMagZ(Field),
    Unknown { data: Vec<u8>, field_def_num: u8 },
}

impl MagnetometerData {
    /// The profile entry of each field of this message.
    pub open spec fn profile(field_def_num: u8) -> Option<FieldProfile> {
        match field_def_num {
            253 => Some(FieldProfile { base: BaseType::Uint32, profile_type: Some(ProfileType::DateTime), scale: None, offset: None, units: Some("s") }),
            0 => Some(FieldProfile { base: BaseType::Uint16, profile_type: None, scale: None, offset: None, units: Some("ms") }),
            1 => Some(FieldProfile { base: BaseType::Uint16, profile_type: None, scale: None, offset: None, units: Some("ms") }),
            2 => Some(FieldProfile { base: BaseType::Uint16, profile_type: None, scale: None, offset: None, units: Some("counts") }),
            3 => Some(FieldProfile { base: BaseType::Uint16, profile_type: None, scale: None, offset: None, units: Some("counts") }),
            4 => Some(FieldProfile { base: BaseType::Uint16, profile_type: None, scale: None, offset: None, units: Some("counts") }),
            5 => Some(FieldProfile { base: BaseType::Float32, profile_type: None, scale: None, offset: None, units: Some("G") }),
            6 => Some(FieldProfile { base: BaseType::Float32, profile_type: None, scale: None, offset: None, units: Some("G") }),
            7 => Some(FieldProfile { base: BaseType::Float32, profile_type: None, scale: None, offset: None, units: Some("G") }),
            _ => None,
        }
    }

    /// The field this value holds.
    pub open spec fn entry(&self) -> FieldEntry {
        match self {
            MagnetometerData::Timestamp(f) => FieldEntry::Known { num: 253, field: f@ },
            MagnetometerData::TimestampMs(f) => FieldEntry::Known { num: 0, field: f@ },
            MagnetometerData::SampleTimeOffset(f) => FieldEntry::Known { num: 1, field: f@ },
            MagnetometerData::MagX(f) => FieldEntry::Known { num: 2, field: f@ },
            MagnetometerData::MagY(f) => FieldEntry::Known { num: 3, field: f@ },
            MagnetometerData::MagZ(f) => FieldEntry::Known { num: 4, field: f@ },
            MagnetometerData::CalibratedMagX(f) => FieldEntry::Known { num: 5, field: f@ },
            MagnetometerData::CalibratedMagY(f) => FieldEntry::Known { num: 6, field: f@ },
            MagnetometerData::CalibratedMagZ(f) => FieldEntry::Known { num: 7, field: f@ },
            MagnetometerData::Unknown { data, field_def_num } => FieldEntry::Unknown { num: *field_def_num, data: data@ },
        }
    }

    /// Decodes the byte run `buffer` of field `field_def_num` of this message.
    pub fn decode(buffer: &[u8], field_def_num: u8, endian: Endian) -> (r: Result<Self, Error>)
        ensures
            match r {
                Ok(m) => decode_entry(Self::profile(field_def_num), field_def_num, buffer@, endian)
                    == Ok::<FieldEntry, Error>(m.entry()),
                Err(x) => decode_entry(Self::profile(field_def_num), field_def_num, buffer@, endian)
                    == Err::<FieldEntry, Error>(x),
            },
    {
        match field_def_num {
            253 => match decode_field(buffer, endian, FieldProfile { base: BaseType::Uint32, profile_type: Some(ProfileType::DateTime), scale: None, offset: None, units: Some("s") }) {
                Ok(f) => Ok(MagnetometerData::Timestamp(f)),
                Err(x) => Err(x),
            },
            0 => match decode_field(buffer, endian, FieldProfile { base: BaseType::Uint16, profile_type: None, scale: None, offset: None, units: Some("ms") }) {
                Ok(f) => Ok(MagnetometerData::TimestampMs(f)),
                Err(x) => Err(x),
            },
            1 => match decode_field(buffer, endian, FieldProfile { base: BaseType::Uint16, profile_type: None, scale: None, offset: None, units: Some("ms") }) {
                Ok(f) => Ok(MagnetometerData::SampleTimeOffset(f)),
                Err(x) => Err(x),
            },
            2 => match decode_field(buffer, endian, FieldProfile { base: BaseType::Uint16, profile_type: None, scale: None, offset: None, units: Some("counts") }) {
                Ok(f) => Ok(MagnetometerData::MagX(f)),
                Err(x) => Err(x),
            },
            3 => match decode_field(buffer, endian, FieldProfile { base: BaseType::Uint16, profile_type: None, scale: None, offset: None, units: Some("counts") }) {
                Ok(f) => Ok(MagnetometerData::MagY(f)),
                Err(x) => Err(x),
            },
            4 => match decode_field(buffer, endian, FieldProfile { base: BaseType::Uint16, profile_type: None, scale: None, offset: None, units: Some("counts") }) {
                Ok(f) => Ok(MagnetometerData::MagZ(f)),
                Err(x) => Err(x),
            },
            5 => match decode_field(buffer, endian, FieldProfile { base: BaseType::Float32, profile_type: None, scale: None, offset: None, units: Some("G") }) {
                Ok(f) => Ok(MagnetometerData::CalibratedMagX(f)),
                Err(x) => Err(x),
            },
            6 => match decode_field(buffer, endian, FieldProfile { base: BaseType::Float32, profile_type: None, scale: None, offset: None, units: Some("G") }) {
                Ok(f) => Ok(MagnetometerData::CalibratedMagY(f)),
                Err(x) => Err(x),
            },
            7 => match decode_field(buffer, endian, FieldProfile { base: BaseType::Float32, profile_type: None, scale: None, offset: None, units: Some("G") }) {
                Ok(f) => Ok(MagnetometerData::CalibratedMagZ(f)),
                Err(x) => Err(x),
            },
            _ => Ok(MagnetometerData::Unknown { data: slice_to_vec(buffer), field_def_num }),
        }
    }
}

#[derive(Debug, Clone)]
pub enum BarometerData {
    /// Whole second part of the timestamp
    Timestamp(Field),
    /// Millisecond part of the timestamp.
    TimestampMs(Field),
    /// Each time in the array describes the time at which the barometer sample with the corrosponding index was taken. The samples may span across seconds. Array size must match the number of samples in baro_cal
    SampleTimeOffset(Field),
    /// These are the raw ADC reading. The samples may span across seconds. A conversion will need to be done on this data once read.
    BaroPres(Field),
    Unknown { data: Vec<u8>, field_def_num: u8 },
}

impl BarometerData {
    /// The profile entry of each field of this message.
    pub open spec fn profile(field_def_num: u8) -> Option<FieldProfile> {
        match field_def_num {
            253 => Some(FieldProfile { base: BaseType::Uint32, profile_type: Some(ProfileType::DateTime), scale: None, offset: None, units: Some("s") }),
            0 => Some(FieldProfile { base: BaseType::Uint16, profile_type: None, scale: None, offset: None, units: Some("ms") }),
            1 => Some(FieldProfile { base: BaseType::Uint16, profile_type: None, scale: None, offset: None, units: Some("ms") }),
            2 => Some(FieldProfile { base: BaseType::Uint32, profile_type: None, scale: None, offset: None, units: Some("Pa") }),
            _ => None,
        }
    }

    /// The field this value holds.
    pub open spec fn entry(&self) -> FieldEntry {
        match self {
            BarometerData::Timestamp(f) => FieldEntry::Known { num: 253, field: f@ },
            BarometerData::TimestampMs(f) => FieldEntry::Known { num: 0, field: f@ },
            BarometerData::SampleTimeOffset(f) => FieldEntry::Known { num: 1, field: f@ },
            BarometerData::BaroPres(f) => FieldEntry::Known { num: 2, field: f@ },
            BarometerData::Unknown { data, field_def_num } => FieldEntry::Unknown { num: *field_def_num, data: data@ },
        }
    }

    /// Decodes the byte run `buffer` of field `field_def_num` of this message.
    pub fn decode(buffer: &[u8], field_def_num: u8, endian: Endian) -> (r: Result<Self, Error>)
        ensures
            match r {
                Ok(m) => decode_entry(Self::profile(field_def_num), field_def_num, buffer@, endian)
                    == Ok::<FieldEntry, Error>(m.entry()),
                Err(x) => decode_entry(Self::profile(field_def_num), field_def_num, buffer@, endian)
                    == Err::<FieldEntry, Error>(x),
            },
    {
        match field_def_num {
            253 => match decode_field(buffer, endian, FieldProfile { base: BaseType::Uint32, profile_type: Some(ProfileType::DateTime), scale: None, offset: None, units: Some("s") }) {
                Ok(f) => Ok(BarometerData::Timestamp(f)),
                Err(x) => Err(x),
            },
            0 => match decode_field(buffer, endian, FieldProfile { base: BaseType::Uint16, profile_type: None, scale: None, offset: None, units: Some("ms") }) {
                Ok(f) => Ok(BarometerData::TimestampMs(f)),
                Err(x) => Err(x),
            },
            1 => match decode_field(buffer, endian, FieldProfile { base: BaseType::Uint16, profile_type: None, scale: None, offset: None, units: Some("ms") }) {
                Ok(f) => Ok(BarometerData::SampleTimeOffset(f)),
                Err(x) => Err(x),
            },
            2 => match decode_field(buffer, endian, FieldProfile { base: BaseType::Uint32, profile_type: None, scale: None, offset: None, units: Some("Pa") }) {
                Ok(f) => Ok(BarometerData::BaroPres(f)),
                Err(x) => Err(x),
            },
            _ => Ok(BarometerData::Unknown { data: slice_to_vec(buffer), field_def_num }),
        }
    }
}

#[derive(Debug, Clone)]
pub enum ThreeDSensorCalibration {
    /// Whole second part of the timestamp
    Timestamp(Field),
    /// Indicates which sensor the calibration is for
    SensorType(Field),
    /// Calibration factor used to convert from raw ADC raw_value to degrees, g,  etc.
    CalibrationFactor(Field),
    /// Calibration factor divisor
    CalibrationDivisor(Field),
    /// Level shift raw_value used to shift the ADC raw_value back into range
    LevelShift(Field),
    /// Internal calibration factors, one for each: xy, yx, zx
    OffsetCal(Field),
    /// 3 x 3 rotation matrix (row major)
    OrientationMatrix(Field),
    Unknown { data: Vec<u8>, field_def_num: u8 },
}

impl ThreeDSensorCalibration {
    /// The profile entry of each field of this message.
    pub open spec fn profile(field_def_num: u8) -> Option<FieldProfile> {
        match field_def_num {
            253 => Some(FieldProfile { base: BaseType::Uint32, profile_type: Some(ProfileType::DateTime), scale: None, offset: None, units: Some("s") }),
            0 => Some(FieldProfile { base: BaseType::Enum, profile_type: Some(ProfileType::SensorType), scale: None, offset: None, units: None }),
            1 => Some(FieldProfile { base: BaseType::Uint32, profile_type: None, scale: None, offset: None, units: None }),
            2 => Some(FieldProfile { base: BaseType::Uint32, profile_type: None, scale: None, offset: None, units: Some("counts") }),
            3 => Some(FieldProfile { base: BaseType::Uint32, profile_type: None, scale: None, offset: None, units: None }),
            4 => Some(FieldProfile { base: BaseType::Sint32, profile_type: None, scale: None, offset: None, units: None }),
            5 => Some(FieldProfile { base: BaseType::Sint32, profile_type: None, scale: Some(Scale { num: 65535, den: 1 }), offset: None, units: None }),
            _ => None,
        }
    }

    /// The field this value holds.
    pub open spec fn entry(&self) -> FieldEntry {
        match self {
            ThreeDSensorCalibration::Timestamp(f) => FieldEntry::Known { num: 253, field: f@ },
            ThreeDSensorCalibration::SensorType(f) => FieldEntry::Known { num: 0, field: f@ },
            ThreeDSensorCalibration::CalibrationFactor(f) => FieldEntry::Known { num: 1, field: f@ },
            ThreeDSensorCalibration::CalibrationDivisor(f) => FieldEntry::Known { num: 2, field: f@ },
            ThreeDSensorCalibration::LevelShift(f) => FieldEntry::Known { num: 3, field: f@ },
            ThreeDSensorCalibration::OffsetCal(f) => FieldEntry::Known { num: 4, field: f@ },
            ThreeDSensorCalibration::OrientationMatrix(f) => FieldEntry::Known { num: 5, field: f@ },
            ThreeDSensorCalibration::Unknown { data, field_def_num } => FieldEntry::Unknown { num: *field_def_num, data: data@ },
        }
    }

    /// Decodes the byte run `buffer` of field `field_def_num` of this message.
    pub fn decode(buffer: &[u8], field_def_num: u8, endian: Endian) -> (r: Result<Self, Error>)
        ensures
            match r {
                Ok(m) => decode_entry(Self::profile(field_def_num), field_def_num, buffer@, endian)
                    == Ok::<FieldEntry, Error>(m.entry()),
                Err(x) => decode_entry(Self::profile(field_def_num), field_def_num, buffer@, endian)
                    == Err::<FieldEntry, Error>(x),
            },
    {
        match field_def_num {
            253 => match decode_field(buffer, endian, FieldProfile { base: BaseType::Uint32, profile_type: Some(ProfileType::DateTime), scale: None, offset: None, units: Some("s") }) {
                Ok(f) => Ok(ThreeDSensorCalibration::Timestamp(f)),
                Err(x) => Err(x),
            },
            0 => match decode_field(buffer, endian, FieldProfile { base: BaseType::Enum, profile_type: Some(ProfileType::SensorType), scale: None, offset: None, units: None }) {
                Ok(f) => Ok(ThreeDSensorCalibration::SensorType(f)),
                Err(x) => Err(x),
            },
            1 => match decode_field(buffer, endian, FieldProfile { base: BaseType::Uint32, profile_type: None, scale: None, offset: None, units: None }) {
                Ok(f) => Ok(ThreeDSensorCalibration::CalibrationFactor(f)),
                Err(x) => Err(x),
            },
            2 => match decode_field(buffer, endian, FieldProfile { base: BaseType::Uint32, profile_type: None, scale: None, offset: None, units: Some("counts") }) {
                Ok(f) => Ok(ThreeDSensorCalibration::CalibrationDivisor(f)),
                Err(x) => Err(x),
            },
            3 => match decode_field(buffer, endian, FieldProfile { base: BaseType::Uint32, profile_type: None, scale: None, offset: None, units: None }) {
                Ok(f) => Ok(ThreeDSensorCalibration::LevelShift(f)),
                Err(x) => Err(x),
            },
            4 => match decode_field(buffer, endian, FieldProfile { base: BaseType::Sint32, profile_type: None, scale: None, offset: None, units: None }) {
                Ok(f) => Ok(ThreeDSensorCalibration::OffsetCal(f)),
                Err(x) => Err(x),
            },
            5 => match decode_field(buffer, endian, FieldProfile { base: BaseType::Sint32, profile_type: None, scale: Some(Scale { num: 65535, den: 1 }), offset: None, units: None }) {
                Ok(f) => Ok(ThreeDSensorCalibration::OrientationMatrix(f)),
                Err(x) => Err(x),
            },
            _ => Ok(ThreeDSensorCalibration::Unknown { data: slice_to_vec(buffer), field_def_num }),
        }
    }
}

#[derive(Debug, Clone)]
pub enum OneDSensorCalibration {
    /// Whole second part of the timestamp
    Timestamp(Field),
    /// Indicates which sensor the calibration is for
    SensorType(Field),
    /// Calibration factor used to convert from raw ADC raw_value to degrees, g,  etc.
    CalibrationFactor(Field),
    /// Calibration factor divisor
    CalibrationDivisor(Field),
    /// Level shift raw_value used to shift the ADC raw_value back into range
    LevelShift(Field),
    /// Internal Calibration factor
    OffsetCal(Field),
    Unknown { data: Vec<u8>, field_def_num: u8 },
}

impl OneDSensorCalibration {
    /// The profile entry of each field of this message.
    pub open spec fn profile(field_def_num: u8) -> Option<FieldProfile> {
        match field_def_num {
            253 => Some(FieldProfile { base: BaseType::Uint32, profile_type: Some(ProfileType::DateTime), scale: None, offset: None, units: Some("s") }),
            0 => Some(FieldProfile { base: BaseType::Enum, profile_type: Some(ProfileType::SensorType), scale: None, offset: None, units: None }),
            1 => Some(FieldProfile { base: BaseType::Uint32, profile_type: None, scale: None, offset: None, units: None }),
            2 => Some(FieldProfile { base: BaseType::Uint32, profile_type: None, scale: None, offset: None, units: Some("counts") }),
            3 => Some(FieldProfile { base: BaseType::Uint32, profile_type: None, scale: None, offset: None, units: None }),
            4 => Some(FieldProfile { base: BaseType::Sint32, profile_type: None, scale: None, offset: None, units: None }),
            _ => None,
        }
    }

    /// The field this value holds.
    pub open spec fn entry(&self) -> FieldEntry {
        match self {
            OneDSensorCalibration::Timestamp(f) => FieldEntry::Known { num: 253, field: f@ },
            OneDSensorCalibration::SensorType(f) => FieldEntry::Known { num: 0, field: f@ },
            OneDSensorCalibration::CalibrationFactor(f) => FieldEntry::Known { num: 1, field: f@ },
            OneDSensorCalibration::CalibrationDivisor(f) => FieldEntry::Known { num: 2, field: f@ },
            OneDSensorCalibration::LevelShift(f) => FieldEntry::Known { num: 3, field: f@ },
            OneDSensorCalibration::OffsetCal(f) => FieldEntry::Known { num: 4, field: f@ },
            OneDSensorCalibration::Unknown { data, field_def_num } => FieldEntry::Unknown { num: *field_def_num, data: data@ },
        }
    }

    /// Decodes the byte run `buffer` of field `field_def_num` of this message.
    pub fn decode(buffer: &[u8], field_def_num: u8, endian: Endian) -> (r: Result<Self, Error>)
        ensures
            match r {
                Ok(m) => decode_entry(Self::profile(field_def_num), field_def_num, buffer@, endian)
                    == Ok::<FieldEntry, Error>(m.entry()),
                Err(x) => decode_entry(Self::profile(field_def_num), field_def_num, buffer@, endian)
                    == Err::<FieldEntry, Error>(x),
            },
    {
        match field_def_num {
            253 => match decode_field(buffer, endian, FieldProfile { base: BaseType::Uint32, profile_type: Some(ProfileType::DateTime), scale: None, offset: None, units: Some("s") }) {
                Ok(f) => Ok(OneDSensorCalibration::Timestamp(f)),
                Err(x) => Err(x),
            },
            0 => match decode_field(buffer, endian, FieldProfile { base: BaseType::Enum, profile_type: Some(ProfileType::SensorType), scale: None, offset: None, units: None }) {
                Ok(f) => Ok(OneDSensorCalibration::SensorType(f)),
                Err(x) => Err(x),
            },
            1 => match decode_field(buffer, endian, FieldProfile { base: BaseType::Uint32, profile_type: None, scale: None, offset: None, units: None }) {
                Ok(f) => Ok(OneDSensorCalibration::CalibrationFactor(f)),
                Err(x) => Err(x),
            },
            2 => match decode_field(buffer, endian, FieldProfile { base: BaseType::Uint32, profile_type: None, scale: None, offset: None, units: Some("counts") }) {
                Ok(f) => Ok(OneDSensorCalibration::CalibrationDivisor(f)),
                Err(x) => Err(x),
            },
            3 => match decode_field(buffer, endian, FieldProfile { base: BaseType::Uint32, profile_type: None, scale: None, offset: None, units: None }) {
                Ok(f) => Ok(OneDSensorCalibration::LevelShift(f)),
                Err(x) => Err(x),
            },
            4 => match decode_field(buffer, endian, FieldProfile { base: BaseType::Sint32, profile_type: None, scale: None, offset: None, units: None }) {
                Ok(f) => Ok(OneDSensorCalibration::OffsetCal(f)),
                Err(x) => Err(x),
            },
            _ => Ok(OneDSensorCalibration::Unknown { data: slice_to_vec(buffer), field_def_num }),
        }
    }
}

#[derive(Debug, Clone)]
pub enum VideoFrame {
    /// Whole second part of the timestamp
    Timestamp(Field),
    /// Millisecond part of the timestamp.
    TimestampMs(Field),
    /// Number of the frame that the timestamp and timestamp_ms correlate to
    FrameNumber(Field),
    Unknown { data: Vec<u8>, field_def_num: u8 },
}

impl VideoFrame {
    /// The profile entry of each field of this message.
    pub open spec fn profile(field_def_num: u8) -> Option<FieldProfile> {
        match field_def_num {
            253 => Some(FieldProfile { base: BaseType::Uint32, profile_type: Some(ProfileType::DateTime), scale: None, offset: None, units: Some("s") }),
            0 => Some(FieldProfile { base: BaseType::Uint16, profile_type: None, scale: None, offset: None, units: Some("ms") }),
            1 => Some(FieldProfile { base: BaseType::Uint32, profile_type: None, scale: None, offset: None, units: None }),
            _ => None,
        }
    }

    /// The field this value holds.
    pub open spec fn entry(&self) -> FieldEntry {
        match self {
            VideoFrame::Timestamp(f) => FieldEntry::Known { num: 253, field: f@ },
            VideoFrame::TimestampMs(f) => FieldEntry::Known { num: 0, field: f@ },
            VideoFrame::FrameNumber(f) => FieldEntry::Known { num: 1, field: f@ },
            VideoFrame::Unknown { data, field_def_num } => FieldEntry::Unknown { num: *field_def_num, data: data@ },
        }
    }

    /// Decodes the byte run `buffer` of field `field_def_num` of this message.
    pub fn decode(buffer: &[u8], field_def_num: u8, endian: Endian) -> (r: Result<Self, Error>)
        ensures
            match r {
                Ok(m) => decode_entry(Self::profile(field_def_num), field_def_num, buffer@, endian)
                    == Ok::<FieldEntry, Error>(m.entry()),
                Err(x) => decode_entry(Self::profile(field_def_num), field_def_num, buffer@, endian)
                    == Err::<FieldEntry, Error>(x),
            },
    {
        match field_def_num {
            253 => match decode_field(buffer, endian, FieldProfile { base: BaseType::Uint32, profile_type: Some(ProfileType::DateTime), scale: None, offset: None, units: Some("s") }) {
                Ok(f) => Ok(VideoFrame::Timestamp(f)),
                Err(x) => Err(x),
            },
            0 => match decode_field(buffer, endian, FieldProfile { base: BaseType::Uint16, profile_type: None, scale: None, offset: None, units: Some("ms") }) {
                Ok(f) => Ok(VideoFrame::TimestampMs(f)),
                Err(x) => Err(x),
            },
            1 => match decode_field(buffer, endian, FieldProfile { base: BaseType::Uint32, profile_type: None, scale: None, offset: None, units: None }) {
                Ok(f) => Ok(VideoFrame::FrameNumber(f)),
                Err(x) => Err(x),
            },
            _ => Ok(VideoFrame::Unknown { data: slice_to_vec(buffer), field_def_num }),
        }
    }
}

#[derive(Debug, Clone)]
pub enum ObdiiData {
    /// Timestamp message was output
    Timestamp(Field),
    /// Fractional part of timestamp, added to timestamp
    TimestampMs(Field),
    /// Offset of PID reading \\[i\\] from start_timestamp+start_timestamp_ms. Readings may span accross seconds.
    TimeOffset(Field),
    /// Parameter ID
    Pid(Field),
    /// Raw parameter data
    RawData(Field),
    /// Optional, data size of PID\\[i\\].  If not specified refer to SAE J1979.
    PidDataSize(Field),
    /// System time associated with sample expressed in ms, can be used instead of time_offset.  There will be a system_time raw_value for each raw_data element.  For multibyte pids the system_time is repeated.
    SystemTime(Field),
    /// Timestamp of first sample recorded in the message.  Used with time_offset to generate time of each sample
    StartTimestamp(Field),
    /// Fractional part of start_timestamp
    StartTimestampMs(Field),
    Unknown { data: Vec<u8>, field_def_num: u8 },
}

impl ObdiiData {
    /// The profile entry of each field of this message.
    pub open spec fn profile(field_def_num: u8) -> Option<FieldProfile> {
        match field_def_num {
            253 => Some(FieldProfile { base: BaseType::Uint32, profile_type: Some(ProfileType::DateTime), scale: None, offset: None, units: Some("s") }),
            0 => Some(FieldProfile { base: BaseType::Uint16, profile_type: None, scale: None, offset: None, units: Some("ms") }),
            1 => Some(FieldProfile { base: BaseType::Uint16, profile_type: None, scale: None, offset: None, units: Some("ms") }),
            2 => Some(FieldProfile { base: BaseType::Bytes, profile_type: None, scale: None, offset: None, units: None }),
            3 => Some(FieldProfile { base: BaseType::Bytes, profile_type: None, scale: None, offset: None, units: None }),
            4 => Some(FieldProfile { base: BaseType::Uint8, profile_type: None, scale: None, offset: None, units: None }),
            5 => Some(FieldProfile { base: BaseType::Uint32, profile_type: None, scale: None, offset: None, units: None }),
            6 => Some(FieldProfile { base: BaseType::Uint32, profile_type: Some(ProfileType::DateTime), scale: None, offset: None, units: None }),
            7 => Some(FieldProfile { base: BaseType::Uint16, profile_type: None, scale: None, offset: None, units: Some("ms") }),
            _ => None,
        }
    }

    /// The field this value holds.
    pub open spec fn entry(&self) -> FieldEntry {
        match self {
            ObdiiData::Timestamp(f) => FieldEntry::Known { num: 253, field: f@ },
            ObdiiData::TimestampMs(f) => FieldEntry::Known { num: 0, field: f@ },
            ObdiiData::TimeOffset(f) => FieldEntry::Known { num: 1, field: f@ },
            ObdiiData::Pid(f) => FieldEntry::Known { num: 2, field: f@ },
            ObdiiData::RawData(f) => FieldEntry::Known { num: 3, field: f@ },
            ObdiiData::PidDataSize(f) => FieldEntry::Known { num: 4, field: f@ },
            ObdiiData::SystemTime(f) => FieldEntry::Known { num: 5, field: f@ },
            ObdiiData::StartTimestamp(f) => FieldEntry::Known { num: 6, field: f@ },
            ObdiiData::StartTimestampMs(f) => FieldEntry::Known { num: 7, field: f@ },
            ObdiiData::Unknown { data, field_def_num } => FieldEntry::Unknown { num: *field_def_num, data: data@ },
        }
    }

    /// Decodes the byte run `buffer` of field `field_def_num` of this message.
    pub fn decode(buffer: &[u8], field_def_num: u8, endian: Endian) -> (r: Result<Self, Error>)
        ensures
            match r {
                Ok(m) => decode_entry(Self::profile(field_def_num), field_def_num, buffer@, endian)
                    == Ok::<FieldEntry, Error>(m.entry()),
                Err(x) => decode_entry(Self::profile(field_def_num), field_def_num, buffer@, endian)
                    == Err::<FieldEntry, Error>(x),
            },
    {
        match field_def_num {
            253 => match decode_field(buffer, endian, FieldProfile { base: BaseType::Uint32, profile_type: Some(ProfileType::DateTime), scale: None, offset: None, units: Some("s") }) {
                Ok(f) => Ok(ObdiiData::Timestamp(f)),
                Err(x) => Err(x),
            },
            0 => match decode_field(buffer, endian, FieldProfile { base: BaseType::Uint16, profile_type: None, scale: None, offset: None, units: Some("ms") }) {
                Ok(f) => Ok(ObdiiData::TimestampMs(f)),
                Err(x) => Err(x),
            },
            1 => match decode_field(buffer, endian, FieldProfile { base: BaseType::Uint16, profile_type: None, scale: None, offset: None, units: Some("ms") }) {
                Ok(f) => Ok(ObdiiData::TimeOffset(f)),
                Err(x) => Err(x),
            },
            2 => match decode_field(buffer, endian, FieldProfile { base: BaseType::Bytes, profile_type: None, scale: None, offset: None, units: None }) {
                Ok(f) => Ok(ObdiiData::Pid(f)),
                Err(x) => Err(x),
            },
            3 => match decode_field(buffer, endian, FieldProfile { base: BaseType::Bytes, profile_type: None, scale: None, offset: None, units: None }) {
                Ok(f) => Ok(ObdiiData::RawData(f)),
                Err(x) => Err(x),
            },
            4 => match decode_field(buffer, endian, FieldProfile { base: BaseType::Uint8, profile_type: None, scale: None, offset: None, units: None }) {
                Ok(f) => Ok(ObdiiData::PidDataSize(f)),
                Err(x) => Err(x),
            },
            5 => match decode_field(buffer, endian, FieldProfile { base: BaseType::Uint32, profile_type: None, scale: None, offset: None, units: None }) {
                Ok(f) => Ok(ObdiiData::SystemTime(f)),
                Err(x) => Err(x),
            },
            6 => match decode_field(buffer, endian, FieldProfile { base: BaseType::Uint32, profile_type: Some(ProfileType::DateTime), scale: None, offset: None, units: None }) {
                Ok(f) => Ok(ObdiiData::StartTimestamp(f)),
                Err(x) => Err(x),
            },
            7 => match decode_field(buffer, endian, FieldProfile { base: BaseType::Uint16, profile_type: None, scale: None, offset: None, units: Some("ms") }) {
                Ok(f) => Ok(ObdiiData::StartTimestampMs(f)),
                Err(x) => Err(x),
            },
            _ => Ok(ObdiiData::Unknown { data: slice_to_vec(buffer), field_def_num }),
        }
    }
}

#[derive(Debug, Clone)]
pub enum NmeaSentence {
    /// Timestamp message was output
    Timestamp(Field),
    /// Fractional part of timestamp, added to timestamp
    TimestampMs(Field),
    /// NMEA sentence
    Sentence(Field),
    Unknown { data: Vec<u8>, field_def_num: u8 },
}

impl NmeaSentence {
    /// The profile entry of each field of this message.
    pub open spec fn profile(field_def_num: u8) -> Option<FieldProfile> {
        match field_def_num {
            253 => Some(FieldProfile { base: BaseType::Uint32, profile_type: Some(ProfileType::DateTime), scale: None, offset: None, units: Some("s") }),
            0 => Some(FieldProfile { base: BaseType::Uint16, profile_type: None, scale: None, offset: None, units: Some("ms") }),
            1 => Some(FieldProfile { base: BaseType::Utf8String, profile_type: None, scale: None, offset: None, units: None }),
            _ => None,
        }
    }

    /// The field this value holds.
    pub open spec fn entry(&self) -> FieldEntry {
        match self {
            NmeaSentence::Timestamp(f) => FieldEntry::Known { num: 253, field: f@ },
            NmeaSentence::TimestampMs(f) => FieldEntry::Known { num: 0, field: f@ },
            NmeaSentence::Sentence(f) => FieldEntry::Known { num: 1, field: f@ },
            NmeaSentence::Unknown { data, field_def_num } => FieldEntry::Unknown { num: *field_def_num, data: data@ },
        }
    }

    /// Decodes the byte run `buffer` of field `field_def_num` of this message.
    pub fn decode(buffer: &[u8], field_def_num: u8, endian: Endian) -> (r: Result<Self, Error>)
        ensures
            match r {
                Ok(m) => decode_entry(Self::profile(field_def_num), field_def_num, buffer@, endian)
                    == Ok::<FieldEntry, Error>(m.entry()),
                Err(x) => decode_entry(Self::profile(field_def_num), field_def_num, buffer@, endian)
                    == Err::<FieldEntry, Error>(x),
            },
    {
        match field_def_num {
            253 => match decode_field(buffer, endian, FieldProfile { base: BaseType::Uint32, profile_type: Some(ProfileType::DateTime), scale: None, offset: None, units: Some("s") }) {
                Ok(f) => Ok(NmeaSentence::Timestamp(f)),
                Err(x) => Err(x),
            },
            0 => match decode_field(buffer, endian, FieldProfile { base: BaseType::Uint16, profile_type: None, scale: None, offset: None, units: Some("ms") }) {
                Ok(f) => Ok(NmeaSentence::TimestampMs(f)),
                Err(x) => Err(x),
            },
            1 => match decode_field(buffer, endian, FieldProfile { base: BaseType::Utf8String, profile_type: None, scale: None, offset: None, units: None }) {
                Ok(f) => Ok(NmeaSentence::Sentence(f)),
                Err(x) => Err(x),
            },
            _ => Ok(NmeaSentence::Unknown { data: slice_to_vec(buffer), field_def_num }),
        }
    }
}

#[derive(Debug, Clone)]
pub enum AviationAttitude {
    /// Timestamp message was output
    Timestamp(Field),
    /// Fractional part of timestamp, added to timestamp
    TimestampMs(Field),
    /// System time associated with sample expressed in ms.
    SystemTime(Field),
    /// Range -PI/2 to +PI/2
    Pitch(Field),
    /// Range -PI to +PI
    Roll(Field),
    /// Range -78.4 to +78.4 (-8 Gs to 8 Gs)
    AccelLateral(Field),
    /// Range -78.4 to +78.4 (-8 Gs to 8 Gs)
    AccelNormal(Field),
    /// Range -8.727 to +8.727 (-500 degs/sec to +500 degs/sec)
    TurnRate(Field),
    Stage(Field),
    /// The percent complete of the current attitude stage.  Set to 0 for attitude stages 0, 1 and 2 and to 100 for attitude stage 3 by AHRS modules that do not support it.  Range - 100
    AttitudeStageComplete(Field),
    /// Track Angle/Heading Range 0 - 2pi
    Track(Field),
    Validity(Field),
    Unknown { data: Vec<u8>, field_def_num: u8 },
}

impl AviationAttitude {
    /// The profile entry of each field of this message.
    pub open spec fn profile(field_def_num: u8) -> Option<FieldProfile> {
        match field_def_num {
            253 => Some(FieldProfile { base: BaseType::Uint32, profile_type: Some(ProfileType::DateTime), scale: None, offset: None, units: Some("s") }),
            0 => Some(FieldProfile { base: BaseType::Uint16, profile_type: None, scale: None, offset: None, units: Some("ms") }),
            1 => Some(FieldProfile { base: BaseType::Uint32, profile_type: None, scale: None, offset: None, units: Some("ms") }),
            2 => Some(FieldProfile { base: BaseType::Sint16, profile_type: None, scale: Some(Scale { num: 1043038, den: 100 }), offset: None, units: Some("radians") }),
            3 => Some(FieldProfile { base: BaseType::Sint16, profile_type: None, scale: Some(Scale { num: 1043038, den: 100 }), offset: None, units: Some("radians") }),
            4 => Some(FieldProfile { base: BaseType::Sint16, profile_type: None, scale: Some(Scale { num: 100, den: 1 }), offset: None, units: Some("m/s^2") }),
            5 => Some(FieldProfile { base: BaseType::Sint16, profile_type: None, scale: Some(Scale { num: 100, den: 1 }), offset: None, units: Some("m/s^2") }),
            6 => Some(FieldProfile { base: BaseType::Sint16, profile_type: None, scale: Some(Scale { num: 1024, den: 1 }), offset: None, units: Some("radians/second") }),
            7 => Some(FieldProfile { base: BaseType::Enum, profile_type: Some(ProfileType::AttitudeStage), scale: None, offset: None, units: None }),
            8 => Some(FieldProfile { base: BaseType::Uint8, profile_type: None, scale: None, offset: None, units: Some("%") }),
            9 => Some(FieldProfile { base: BaseType::Uint16, profile_type: None, scale: Some(Scale { num: 1043038, den: 100 }), offset: None, units: Some("radians") }),
            10 => Some(FieldProfile { base: BaseType::Uint16, profile_type: Some(ProfileType::AttitudeValidity), scale: None, offset: None, units: None }),
            _ => None,
        }
    }

    /// The field this value holds.
    pub open spec fn entry(&self) -> FieldEntry {
        match self {
            AviationAttitude::Timestamp(f) => FieldEntry::Known { num: 253, field: f@ },
            AviationAttitude::TimestampMs(f) => FieldEntry::Known { num: 0, field: f@ },
            AviationAttitude::SystemTime(f) => FieldEntry::Known { num: 1, field: f@ },
            AviationAttitude::Pitch(f) => FieldEntry::Known { num: 2, field: f@ },
            AviationAttitude::Roll(f) => FieldEntry::Known { num: 3, field: f@ },
            AviationAttitude::AccelLateral(f) => FieldEntry::Known { num: 4, field: f@ },
            AviationAttitude::AccelNormal(f) => FieldEntry::Known { num: 5, field: f@ },
            AviationAttitude::TurnRate(f) => FieldEntry::Known { num: 6, field: f@ },
            AviationAttitude::Stage(f) => FieldEntry::Known { num: 7, field: f@ },
            AviationAttitude::AttitudeStageComplete(f) => FieldEntry::Known { num: 8, field: f@ },
            AviationAttitude::Track(f) => FieldEntry::Known { num: 9, field: f@ },
            AviationAttitude::Validity(f) => FieldEntry::Known { num: 10, field: f@ },
            AviationAttitude::Unknown { data, field_def_num } => FieldEntry::Unknown { num: *field_def_num, data: data@ },
        }
    }

    /// Decodes the byte run `buffer` of field `field_def_num` of this message.
    pub fn decode(buffer: &[u8], field_def_num: u8, endian: Endian) -> (r: Result<Self, Error>)
        ensures
            match r {
                Ok(m) => decode_entry(Self::profile(field_def_num), field_def_num, buffer@, endian)
                    == Ok::<FieldEntry, Error>(m.entry()),
                Err(x) => decode_entry(Self::profile(field_def_num), field_def_num, buffer@, endian)
                    == Err::<FieldEntry, Error>(x),
            },
    {
        match field_def_num {
            253 => match decode_field(buffer, endian, FieldProfile { base: BaseType::Uint32, profile_type: Some(ProfileType::DateTime), scale: None, offset: None, units: Some("s") }) {
                Ok(f) => Ok(AviationAttitude::Timestamp(f)),
                Err(x) => Err(x),
            },
            0 => match decode_field(buffer, endian, FieldProfile { base: BaseType::Uint16, profile_type: None, scale: None, offset: None, units: Some("ms") }) {
                Ok(f) => Ok(AviationAttitude::TimestampMs(f)),
                Err(x) => Err(x),
            },
            1 => match decode_field(buffer, endian, FieldProfile { base: BaseType::Uint32, profile_type: None, scale: None, offset: None, units: Some("ms") }) {
                Ok(f) => Ok(AviationAttitude::SystemTime(f)),
                Err(x) => Err(x),
            },
            2 => match decode_field(buffer, endian, FieldProfile { base: BaseType::Sint16, profile_type: None, scale: Some(Scale { num: 1043038, den: 100 }), offset: None, units: Some("radians") }) {
                Ok(f) => Ok(AviationAttitude::Pitch(f)),
                Err(x) => Err(x),
            },
            3 => match decode_field(buffer, endian, FieldProfile { base: BaseType::Sint16, profile_type: None, scale: Some(Scale { num: 1043038, den: 100 }), offset: None, units: Some("radians") }) {
                Ok(f) => Ok(AviationAttitude::Roll(f)),
                Err(x) => Err(x),
            },
            4 => match decode_field(buffer, endian, FieldProfile { base: BaseType::Sint16, profile_type: None, scale: Some(Scale { num: 100, den: 1 }), offset: None, units: Some("m/s^2") }) {
                Ok(f) => Ok(AviationAttitude::AccelLateral(f)),
                Err(x) => Err(x),
            },
            5 => match decode_field(buffer, endian, FieldProfile { base: BaseType::Sint16, profile_type: None, scale: Some(Scale { num: 100, den: 1 }), offset: None, units: Some("m/s^2") }) {
                Ok(f) => Ok(AviationAttitude::AccelNormal(f)),
                Err(x) => Err(x),
            },
            6 => match decode_field(buffer, endian, FieldProfile { base: BaseType::Sint16, profile_type: None, scale: Some(Scale { num: 1024, den: 1 }), offset: None, units: Some("radians/second") }) {
                Ok(f) => Ok(AviationAttitude::TurnRate(f)),
                Err(x) => Err(x),
            },
            7 => match decode_field(buffer, endian, FieldProfile { base: BaseType::Enum, profile_type: Some(ProfileType::AttitudeStage), scale: None, offset: None, units: None }) {
                Ok(f) => Ok(AviationAttitude::Stage(f)),
                Err(x) => Err(x),
            },
            8 => match decode_field(buffer, endian, FieldProfile { base: BaseType::Uint8, profile_type: None, scale: None, offset: None, units: Some("%") }) {
                Ok(f) => Ok(AviationAttitude::AttitudeStageComplete(f)),
                Err(x) => Err(x),
            },
            9 => match decode_field(buffer, endian, FieldProfile { base: BaseType::Uint16, profile_type: None, scale: Some(Scale { num: 1043038, den: 100 }), offset: None, units: Some("radians") }) {
                Ok(f) => Ok(AviationAttitude::Track(f)),
                Err(x) => Err(x),
            },
            10 => match decode_field(buffer, endian, FieldProfile { base: BaseType::Uint16, profile_type: Some(ProfileType::AttitudeValidity), scale: None, offset: None, units: None }) {
                Ok(f) => Ok(AviationAttitude::Validity(f)),
                Err(x) => Err(x),
            },
            _ => Ok(AviationAttitude::Unknown { data: slice_to_vec(buffer), field_def_num }),
        }
    }
}

#[derive(Debug, Clone)]
pub enum Video {
    Url(Field),
    HostingProvider(Field),
    /// Playback time of video
    Duration(Field),
    Unknown { data: Vec<u8>, field_def_num: u8 },
}

impl Video {
    /// The profile entry of each field of this message.
    pub open spec fn profile(field_def_num: u8) -> Option<FieldProfile> {
        match field_def_num {
            0 => Some(FieldProfile { base: BaseType::Utf8String, profile_type: None, scale: None, offset: None, units: None }),
            1 => Some(FieldProfile { base: BaseType::Utf8String, profile_type: None, scale: None, offset: None, units: None }),
            2 => Some(FieldProfile { base: BaseType::Uint32, profile_type: None, scale: None, offset: None, units: Some("ms") }),
            _ => None,
        }
    }

    /// The field this value holds.
    pub open spec fn entry(&self) -> FieldEntry {
        match self {
            Video::Url(f) => FieldEntry::Known { num: 0, field: f@ },
            Video::HostingProvider(f) => FieldEntry::Known { num: 1, field: f@ },
            Video::Duration(f) => FieldEntry::Known { num: 2, field: f@ },
            Video::Unknown { data, field_def_num } => FieldEntry::Unknown { num: *field_def_num, data: data@ },
        }
    }

    /// Decodes the byte run `buffer` of field `field_def_num` of this message.
    pub fn decode(buffer: &[u8], field_def_num: u8, endian: Endian) -> (r: Result<Self, Error>)
        ensures
            match r {
                Ok(m) => decode_entry(Self::profile(field_def_num), field_def_num, buffer@, endian)
                    == Ok::<FieldEntry, Error>(m.entry()),
                Err(x) => decode_entry(Self::profile(field_def_num), field_def_num, buffer@, endian)
                    == Err::<FieldEntry, Error>(x),
            },
    {
        match field_def_num {
            0 => match decode_field(buffer, endian, FieldProfile { base: BaseType::Utf8String, profile_type: None, scale: None, offset: None, units: None }) {
                Ok(f) => Ok(Video::Url(f)),
                Err(x) => Err(x),
            },
            1 => match decode_field(buffer, endian, FieldProfile { base: BaseType::Utf8String, profile_type: None, scale: None, offset: None, units: None }) {
                Ok(f) => Ok(Video::HostingProvider(f)),
                Err(x) => Err(x),
            },
            2 => match decode_field(buffer, endian, FieldProfile { base: BaseType::Uint32, profile_type: None, scale: None, offset: None, units: Some("ms") }) {
                Ok(f) => Ok(Video::Duration(f)),
                Err(x) => Err(x),
            },
            _ => Ok(Video::Unknown { data: slice_to_vec(buffer), field_def_num }),
        }
    }
}

#[derive(Debug, Clone)]
pub enum VideoTitle {
    /// Long titles will be split into multiple parts
    MessageIndex(Field),
    /// Total number of title parts
    MessageCount(Field),
    Text(Field),
    Unknown { data: Vec<u8>, field_def_num: u8 },
}

impl VideoTitle {
    /// The profile entry of each field of this message.
    pub open spec fn profile(field_def_num: u8) -> Option<FieldProfile> {
        match field_def_num {
            254 => Some(FieldProfile { base: BaseType::Uint16, profile_type: Some(ProfileType::MessageIndex), scale: None, offset: None, units: None }),
            0 => Some(FieldProfile { base: BaseType::Uint16, profile_type: None, scale: None, offset: None, units: None }),
            1 => Some(FieldProfile { base: BaseType::Utf8String, profile_type: None, scale: None, offset: None, units: None }),
            _ => None,
        }
    }

    /// The field this value holds.
    pub open spec fn entry(&self) -> FieldEntry {
        match self {
            VideoTitle::MessageIndex(f) => FieldEntry::Known { num: 254, field: f@ },
            VideoTitle::MessageCount(f) => FieldEntry::Known { num: 0, field: f@ },
            VideoTitle::Text(f) => FieldEntry::Known { num: 1, field: f@ },
            VideoTitle::Unknown { data, field_def_num } => FieldEntry::Unknown { num: *field_def_num, data: data@ },
        }
    }

    /// Decodes the byte run `buffer` of field `field_def_num` of this message.
    pub fn decode(buffer: &[u8], field_def_num: u8, endian: Endian) -> (r: Result<Self, Error>)
        ensures
            match r {
                Ok(m) => decode_entry(Self::profile(field_def_num), field_def_num, buffer@, endian)
                    == Ok::<FieldEntry, Error>(m.entry()),
                Err(x) => decode_entry(Self::profile(field_def_num), field_def_num, buffer@, endian)
                    == Err::<FieldEntry, Error>(x),
            },
    {
        match field_def_num {
            254 => match decode_field(buffer, endian, FieldProfile { base: BaseType::Uint16, profile_type: Some(ProfileType::MessageIndex), scale: None, offset: None, units: None }) {
                Ok(f) => Ok(VideoTitle::MessageIndex(f)),
                Err(x) => Err(x),
            },
            0 => match decode_field(buffer, endian, FieldProfile { base: BaseType::Uint16, profile_type: None, scale: None, offset: None, units: None }) {
                Ok(f) => Ok(VideoTitle::MessageCount(f)),
                Err(x) => Err(x),
            },
            1 => match decode_field(buffer, endian, FieldProfile { base: BaseType::Utf8String, profile_type: None, scale: None, offset: None, units: None }) {
                Ok(f) => Ok(VideoTitle::Text(f)),
                Err(x) => Err(x),
            },
            _ => Ok(VideoTitle::Unknown { data: slice_to_vec(buffer), field_def_num }),
        }
    }
}

#[derive(Debug, Clone)]
pub enum VideoDescription {
    /// Long descriptions will be split into multiple parts
    MessageIndex(Field),
    /// Total number of description parts
    MessageCount(Field),
    Text(Field),
    Unknown { data: Vec<u8>, field_def_num: u8 },
}

impl VideoDescription {
    /// The profile entry of each field of this message.
    pub open spec fn profile(field_def_num: u8) -> Option<FieldProfile> {
        match field_def_num {
            254 => Some(FieldProfile { base: BaseType::Uint16, profile_type: Some(ProfileType::MessageIndex), scale: None, offset: None, units: None }),
            0 => Some(FieldProfile { base: BaseType::Uint16, profile_type: None, scale: None, offset: None, units: None }),
            1 => Some(FieldProfile { base: BaseType::Utf8String, profile_type: None, scale: None, offset: None, units: None }),
            _ => None,
        }
    }

    /// The field this value holds.
    pub open spec fn entry(&self) -> FieldEntry {
        match self {
            VideoDescription::MessageIndex(f) => FieldEntry::Known { num: 254, field: f@ },
            VideoDescription::MessageCount(f) => FieldEntry::Known { num: 0, field: f@ },
            VideoDescription::Text(f) => FieldEntry::Known { num: 1, field: f@ },
            VideoDescription::Unknown { data, field_def_num } => FieldEntry::Unknown { num: *field_def_num, data: data@ },
        }
    }

    /// Decodes the byte run `buffer` of field `field_def_num` of this message.
    pub fn decode(buffer: &[u8], field_def_num: u8, endian: Endian) -> (r: Result<Self, Error>)
        ensures
            match r {
                Ok(m) => decode_entry(Self::profile(field_def_num), field_def_num, buffer@, endian)
                    == Ok::<FieldEntry, Error>(m.entry()),
                Err(x) => decode_entry(Self::profile(field_def_num), field_def_num, buffer@, endian)
                    == Err::<FieldEntry, Error>(x),
            },
    {
        match field_def_num {
            254 => match decode_field(buffer, endian, FieldProfile { base: BaseType::Uint16, profile_type: Some(ProfileType::MessageIndex), scale: None, offset: None, units: None }) {
                Ok(f) => Ok(VideoDescription::MessageIndex(f)),
                Err(x) => Err(x),
            },
            0 => match decode_field(buffer, endian, FieldProfile { base: BaseType::Uint16, profile_type: None, scale: None, offset: None, units: None }) {
                Ok(f) => Ok(VideoDescription::MessageCount(f)),
                Err(x) => Err(x),
            },
            1 => match decode_field(buffer, endian, FieldProfile { base: BaseType::Utf8String, profile_type: None, scale: None, offset: None, units: None }) {
                Ok(f) => Ok(VideoDescription::Text(f)),
                Err(x) => Err(x),
            },
            _ => Ok(VideoDescription::Unknown { data: slice_to_vec(buffer), field_def_num }),
        }
    }
}

#[derive(Debug, Clone)]
pub enum VideoClip {
    ClipNumber(Field),
    StartTimestamp(Field),
    StartTimestampMs(Field),
    EndTimestamp(Field),
    EndTimestampMs(Field),
    /// Start of clip in video time
    ClipStart(Field),
    /// End of clip in video time
    ClipEnd(Field),
    Unknown { data: Vec<u8>, field_def_num: u8 },
}

impl VideoClip {
    /// The profile entry of each field of this message.
    pub open spec fn profile(field_def_num: u8) -> Option<FieldProfile> {
        match field_def_num {
            0 => Some(FieldProfile { base: BaseType::Uint16, profile_type: None, scale: None, offset: None, units: None }),
            1 => Some(FieldProfile { base: BaseType::Uint32, profile_type: Some(ProfileType::DateTime), scale: None, offset: None, units: None }),
            2 => Some(FieldProfile { base: BaseType::Uint16, profile_type: None, scale: None, offset: None, units: None }),
            3 => Some(FieldProfile { base: BaseType::Uint32, profile_type: Some(ProfileType::DateTime), scale: None, offset: None, units: None }),
            4 => Some(FieldProfile { base: BaseType::Uint16, profile_type: None, scale: None, offset: None, units: None }),
            6 => Some(FieldProfile { base: BaseType::Uint32, profile_type: None, scale: None, offset: None, units: Some("ms") }),
            7 => Some(FieldProfile { base: BaseType::Uint32, profile_type: None, scale: None, offset: None, units: Some("ms") }),
            _ => None,
        }
    }

    /// The field this value holds.
    pub open spec fn entry(&self) -> FieldEntry {
        match self {
            VideoClip::ClipNumber(f) => FieldEntry::Known { num: 0, field: f@ },
            VideoClip::StartTimestamp(f) => FieldEntry::Known { num: 1, field: f@ },
            VideoClip::StartTimestampMs(f) => FieldEntry::Known { num: 2, field: f@ },
            VideoClip::EndTimestamp(f) => FieldEntry::Known { num: 3, field: f@ },
            VideoClip::EndTimestampMs(f) => FieldEntry::Known { num: 4, field: f@ },
            VideoClip::ClipStart(f) => FieldEntry::Known { num: 6, field: f@ },
            VideoClip::ClipEnd(f) => FieldEntry::Known { num: 7, field: f@ },
            VideoClip::Unknown { data, field_def_num } => FieldEntry::Unknown { num: *field_def_num, data: data@ },
        }
    }

    /// Decodes the byte run `buffer` of field `field_def_num` of this message.
    pub fn decode(buffer: &[u8], field_def_num: u8, endian: Endian) -> (r: Result<Self, Error>)
        ensures
            match r {
                Ok(m) => decode_entry(Self::profile(field_def_num), field_def_num, buffer@, endian)
                    == Ok::<FieldEntry, Error>(m.entry()),
                Err(x) => decode_entry(Self::profile(field_def_num), field_def_num, buffer@, endian)
                    == Err::<FieldEntry, Error>(x),
            },
    {
        match field_def_num {
            0 => match decode_field(buffer, endian, FieldProfile { base: BaseType::Uint16, profile_type: None, scale: None, offset: None, units: None }) {
                Ok(f) => Ok(VideoClip::ClipNumber(f)),
                Err(x) => Err(x),
            },
            1 => match decode_field(buffer, endian, FieldProfile { base: BaseType::Uint32, profile_type: Some(ProfileType::DateTime), scale: None, offset: None, units: None }) {
                Ok(f) => Ok(VideoClip::StartTimestamp(f)),
                Err(x) => Err(x),
            },
            2 => match decode_field(buffer, endian, FieldProfile { base: BaseType::Uint16, profile_type: None, scale: None, offset: None, units: None }) {
                Ok(f) => Ok(VideoClip::StartTimestampMs(f)),
                Err(x) => Err(x),
            },
            3 => match decode_field(buffer, endian, FieldProfile { base: BaseType::Uint32, profile_type: Some(ProfileType::DateTime), scale: None, offset: None, units: None }) {
                Ok(f) => Ok(VideoClip::EndTimestamp(f)),
                Err(x) => Err(x),
            },
            4 => match decode_field(buffer, endian, FieldProfile { base: BaseType::Uint16, profile_type: None, scale: None, offset: None, units: None }) {
                Ok(f) => Ok(VideoClip::EndTimestampMs(f)),
                Err(x) => Err(x),
            },
            6 => match decode_field(buffer, endian, FieldProfile { base: BaseType::Uint32, profile_type: None, scale: None, offset: None, units: Some("ms") }) {
                Ok(f) => Ok(VideoClip::ClipStart(f)),
                Err(x) => Err(x),
            },
            7 => match decode_field(buffer, endian, FieldProfile { base: BaseType::Uint32, profile_type: None, scale: None, offset: None, units: Some("ms") }) {
                Ok(f) => Ok(VideoClip::ClipEnd(f)),
                Err(x) => Err(x),
            },
            _ => Ok(VideoClip::Unknown { data: slice_to_vec(buffer), field_def_num }),
        }
    }
}

#[derive(Debug, Clone)]
pub enum SetMessage {
    /// Timestamp of the set
    Timestamp(Field),
    Duration(Field),
    /// # of repitions of the movement
    Repetitions(Field),
    /// Amount of weight applied for the set
    Weight(Field),
    SetType(Field),
    /// Start time of the set
    StartTime(Field),
    Category(Field),
    /// Based on the associated category, see \\[category\\]_exercise_names
    CategorySubtype(Field),
    WeightDisplayUnit(Field),
    MessageIndex(Field),
    WktStepIndex(Field),
    Unknown { data: Vec<u8>, field_def_num: u8 },
}

impl SetMessage {
    /// The profile entry of each field of this message.
    pub open spec fn profile(field_def_num: u8) -> Option<FieldProfile> {
        match field_def_num {
            254 => Some(FieldProfile { base: BaseType::Uint32, profile_type: Some(ProfileType::DateTime), scale: None, offset: None, units: None }),
            0 => Some(FieldProfile { base: BaseType::Uint32, profile_type: None, scale: Some(Scale { num: 1000, den: 1 }), offset: None, units: Some("s") }),
            3 => Some(FieldProfile { base: BaseType::Uint16, profile_type: None, scale: None, offset: None, units: None }),
            4 => Some(FieldProfile { base: BaseType::Uint16, profile_type: None, scale: Some(Scale { num: 16, den: 1 }), offset: None, units: Some("kg") }),
            5 => Some(FieldProfile { base: BaseType::Uint8, profile_type: Some(ProfileType::SetType), scale: None, offset: None, units: None }),
            6 => Some(FieldProfile { base: BaseType::Uint32, profile_type: Some(ProfileType::DateTime), scale: None, offset: None, units: None }),
            7 => Some(FieldProfile { base: BaseType::Uint16, profile_type: Some(ProfileType::ExerciseCategory), scale: None, offset: None, units: None }),
            8 => Some(FieldProfile { base: BaseType::Uint16, profile_type: None, scale: None, offset: None, units: None }),
            9 => Some(FieldProfile { base: BaseType::Uint16, profile_type: Some(ProfileType::FitBaseUnit), scale: None, offset: None, units: None }),
            10 => Some(FieldProfile { base: BaseType::Uint16, profile_type: Some(ProfileType::MessageIndex), scale: None, offset: None, units: None }),
            11 => Some(FieldProfile { base: BaseType::Uint16, profile_type: Some(ProfileType::MessageIndex), scale: None, offset: None, units: None }),
            _ => None,
        }
    }

    /// The field this value holds.
    pub open spec fn entry(&self) -> FieldEntry {
        match self {
            SetMessage::Timestamp(f) => FieldEntry::Known { num: 254, field: f@ },
            SetMessage::Duration(f) => FieldEntry::Known { num: 0, field: f@ },
            SetMessage::Repetitions(f) => FieldEntry::Known { num: 3, field: f@ },
            SetMessage::Weight(f) => FieldEntry::Known { num: 4, field: f@ },
            SetMessage::SetType(f) => FieldEntry::Known { num: 5, field: f@ },
            SetMessage::StartTime(f) => FieldEntry::Known { num: 6, field: f@ },
            SetMessage::Category(f) => FieldEntry::Known { num: 7, field: f@ },
            SetMessage::CategorySubtype(f) => FieldEntry::Known { num: 8, field: f@ },
            SetMessage::WeightDisplayUnit(f) => FieldEntry::Known { num: 9, field: f@ },
            SetMessage::MessageIndex(f) => FieldEntry::Known { num: 10, field: f@ },
            SetMessage::WktStepIndex(f) => FieldEntry::Known { num: 11, field: f@ },
            SetMessage::Unknown { data, field_def_num } => FieldEntry::Unknown { num: *field_def_num, data: data@ },
        }
    }

    /// Decodes the byte run `buffer` of field `field_def_num` of this message.
    pub fn decode(buffer: &[u8], field_def_num: u8, endian: Endian) -> (r: Result<Self, Error>)
        ensures
            match r {
                Ok(m) => decode_entry(Self::profile(field_def_num), field_def_num, buffer@, endian)
                    == Ok::<FieldEntry, Error>(m.entry()),
                Err(x) => decode_entry(Self::profile(field_def_num), field_def_num, buffer@, endian)
                    == Err::<FieldEntry, Error>(x),
            },
    {
        match field_def_num {
            254 => match decode_field(buffer, endian, FieldProfile { base: BaseType::Uint32, profile_type: Some(ProfileType::DateTime), scale: None, offset: None, units: None }) {
                Ok(f) => Ok(SetMessage::Timestamp(f)),
                Err(x) => Err(x),
            },
            0 => match decode_field(buffer, endian, FieldProfile { base: BaseType::Uint32, profile_type: None, scale: Some(Scale { num: 1000, den: 1 }), offset: None, units: Some("s") }) {
                Ok(f) => Ok(SetMessage::Duration(f)),
                Err(x) => Err(x),
            },
            3 => match decode_field(buffer, endian, FieldProfile { base: BaseType::Uint16, profile_type: None, scale: None, offset: None, units: None }) {
                Ok(f) => Ok(SetMessage::Repetitions(f)),
                Err(x) => Err(x),
            },
            4 => match decode_field(buffer, endian, FieldProfile { base: BaseType::Uint16, profile_type: None, scale: Some(Scale { num: 16, den: 1 }), offset: None, units: Some("kg") }) {
                Ok(f) => Ok(SetMessage::Weight(f)),
                Err(x) => Err(x),
            },
            5 => match decode_field(buffer, endian, FieldProfile { base: BaseType::Uint8, profile_type: Some(ProfileType::SetType), scale: None, offset: None, units: None }) {
                Ok(f) => Ok(SetMessage::SetType(f)),
                Err(x) => Err(x),
            },
            6 => match decode_field(buffer, endian, FieldProfile { base: BaseType::Uint32, profile_type: Some(ProfileType::DateTime), scale: None, offset: None, units: None }) {
                Ok(f) => Ok(SetMessage::StartTime(f)),
                Err(x) => Err(x),
            },
            7 => match decode_field(buffer, endian, FieldProfile { base: BaseType::Uint16, profile_type: Some(ProfileType::ExerciseCategory), scale: None, offset: None, units: None }) {
                Ok(f) => Ok(SetMessage::Category(f)),
                Err(x) => Err(x),
            },
            8 => match decode_field(buffer, endian, FieldProfile { base: BaseType::Uint16, profile_type: None, scale: None, offset: None, units: None }) {
                Ok(f) => Ok(SetMessage::CategorySubtype(f)),
                Err(x) => Err(x),
            },
            9 => match decode_field(buffer, endian, FieldProfile { base: BaseType::Uint16, profile_type: Some(ProfileType::FitBaseUnit), scale: None, offset: None, units: None }) {
                Ok(f) => Ok(SetMessage::WeightDisplayUnit(f)),
                Err(x) => Err(x),
            },
            10 => match decode_field(buffer, endian, FieldProfile { base: BaseType::Uint16, profile_type: Some(ProfileType::MessageIndex), scale: None, offset: None, units: None }) {
                Ok(f) => Ok(SetMessage::MessageIndex(f)),
                Err(x) => Err(x),
            },
            11 => match decode_field(buffer, endian, FieldProfile { base: BaseType::Uint16, profile_type: Some(ProfileType::MessageIndex), scale: None, offset: None, units: None }) {
                Ok(f) => Ok(SetMessage::WktStepIndex(f)),
                Err(x) => Err(x),
            },
            _ => Ok(SetMessage::Unknown { data: slice_to_vec(buffer), field_def_num }),
        }
    }
}

#[derive(Debug, Clone)]
pub enum Course {
    Sport(Field),
    Name(Field),
    Capabilities(Field),
    SubSport(Field),
    Unknown { data: Vec<u8>, field_def_num: u8 },
}

impl Course {
    /// The profile entry of each field of this message.
    pub open spec fn profile(field_def_num: u8) -> Option<FieldProfile> {
        match field_def_num {
            4 => Some(FieldProfile { base: BaseType::Enum, profile_type: Some(ProfileType::Sport), scale: None, offset: None, units: None }),
            5 => Some(FieldProfile { base: BaseType::Utf8String, profile_type: None, scale: None, offset: None, units: None }),
            6 => Some(FieldProfile { base: BaseType::Uint32z, profile_type: Some(ProfileType::CourseCapabilities), scale: None, offset: None, units: None }),
            7 => Some(FieldProfile { base: BaseType::Enum, profile_type: Some(ProfileType::SubSport), scale: None, offset: None, units: None }),
            _ => None,
        }
    }

    /// The field this value holds.
    pub open spec fn entry(&self) -> FieldEntry {
        match self {
            Course::Sport(f) => FieldEntry::Known { num: 4, field: f@ },
            Course::Name(f) => FieldEntry::Known { num: 5, field: f@ },
            Course::Capabilities(f) => FieldEntry::Known { num: 6, field: f@ },
            Course::SubSport(f) => FieldEntry::Known { num: 7, field: f@ },
            Course::Unknown { data, field_def_num } => FieldEntry::Unknown { num: *field_def_num, data: data@ },
        }
    }

    /// Decodes the byte run `buffer` of field `field_def_num` of this message.
    pub fn decode(buffer: &[u8], field_def_num: u8, endian: Endian) -> (r: Result<Self, Error>)
        ensures
            match r {
                Ok(m) => decode_entry(Self::profile(field_def_num), field_def_num, buffer@, endian)
                    == Ok::<FieldEntry, Error>(m.entry()),
                Err(x) => decode_entry(Self::profile(field_def_num), field_def_num, buffer@, endian)
                    == Err::<FieldEntry, Error>(x),
            },
    {
        match field_def_num {
            4 => match decode_field(buffer, endian, FieldProfile { base: BaseType::Enum, profile_type: Some(ProfileType::Sport), scale: None, offset: None, units: None }) {
                Ok(f) => Ok(Course::Sport(f)),
                Err(x) => Err(x),
            },
            5 => match decode_field(buffer, endian, FieldProfile { base: BaseType::Utf8String, profile_type: None, scale: None, offset: None, units: None }) {
                Ok(f) => Ok(Course::Name(f)),
                Err(x) => Err(x),
            },
            6 => match decode_field(buffer, endian, FieldProfile { base: BaseType::Uint32z, profile_type: Some(ProfileType::CourseCapabilities), scale: None, offset: None, units: None }) {
                Ok(f) => Ok(Course::Capabilities(f)),
                Err(x) => Err(x),
            },
            7 => match decode_field(buffer, endian, FieldProfile { base: BaseType::Enum, profile_type: Some(ProfileType::SubSport), scale: None, offset: None, units: None }) {
                Ok(f) => Ok(Course::SubSport(f)),
                Err(x) => Err(x),
            },
            _ => Ok(Course::Unknown { data: slice_to_vec(buffer), field_def_num }),
        }
    }
}

#[derive(Debug, Clone)]
pub enum CoursePoint {
    MessageIndex(Field),
    Timestamp(Field),
    PositionLat(Field),
    PositionLong(Field),
    Distance(Field),
    Type(Field),
    Name(Field),
    Favorite(Field),
    Unknown { data: Vec<u8>, field_def_num: u8 },
}

impl CoursePoint {
    /// The profile entry of each field of this message.
    pub open spec fn profile(field_def_num: u8) -> Option<FieldProfile> {
        match field_def_num {
            254 => Some(FieldProfile { base: BaseType::Uint16, profile_type: Some(ProfileType::MessageIndex), scale: None, offset: None, units: None }),
            1 => Some(FieldProfile { base: BaseType::Uint32, profile_type: Some(ProfileType::DateTime), scale: None, offset: None, units: None }),
            2 => Some(FieldProfile { base: BaseType::Sint32, profile_type: None, scale: None, offset: None, units: Some("semicircles") }),
            3 => Some(FieldProfile { base: BaseType::Sint32, profile_type: None, scale: None, offset: None, units: Some("semicircles") }),
            4 => Some(FieldProfile { base: BaseType::Uint32, profile_type: None, scale: Some(Scale { num: 100, den: 1 }), offset: None, units: Some("m") }),
            5 => Some(FieldProfile { base: BaseType::Enum, profile_type: Some(ProfileType::CoursePoint), scale: None, offset: None, units: None }),
            6 => Some(FieldProfile { base: BaseType::Utf8String, profile_type: None, scale: None, offset: None, units: None }),
            8 => Some(FieldProfile { base: BaseType::Bool, profile_type: None, scale: None, offset: None, units: None }),
            _ => None,
        }
    }

    /// The field this value holds.
    pub open spec fn entry(&self) -> FieldEntry {
        match self {
            CoursePoint::MessageIndex(f) => FieldEntry::Known { num: 254, field: f@ },
            CoursePoint::Timestamp(f) => FieldEntry::Known { num: 1, field: f@ },
            CoursePoint::PositionLat(f) => FieldEntry::Known { num: 2, field: f@ },
            CoursePoint::PositionLong(f) => FieldEntry::Known { num: 3, field: f@ },
            CoursePoint::Distance(f) => FieldEntry::Known { num: 4, field: f@ },
            CoursePoint::Type(f) => FieldEntry::Known { num: 5, field: f@ },
            CoursePoint::Name(f) => FieldEntry::Known { num: 6, field: f@ },
            CoursePoint::Favorite(f) => FieldEntry::Known { num: 8, field: f@ },
            CoursePoint::Unknown { data, field_def_num } => FieldEntry::Unknown { num: *field_def_num, data: data@ },
        }
    }

    /// Decodes the byte run `buffer` of field `field_def_num` of this message.
    pub fn decode(buffer: &[u8], field_def_num: u8, endian: Endian) -> (r: Result<Self, Error>)
        ensures
            match r {
                Ok(m) => decode_entry(Self::profile(field_def_num), field_def_num, buffer@, endian)
                    == Ok::<FieldEntry, Error>(m.entry()),
                Err(x) => decode_entry(Self::profile(field_def_num), field_def_num, buffer@, endian)
                    == Err::<FieldEntry, Error>(x),
            },
    {
        match field_def_num {
            254 => match decode_field(buffer, endian, FieldProfile { base: BaseType::Uint16, profile_type: Some(ProfileType::MessageIndex), scale: None, offset: None, units: None }) {
                Ok(f) => Ok(CoursePoint::MessageIndex(f)),
                Err(x) => Err(x),
            },
            1 => match decode_field(buffer, endian, FieldProfile { base: BaseType::Uint32, profile_type: Some(ProfileType::DateTime), scale: None, offset: None, units: None }) {
                Ok(f) => Ok(CoursePoint::Timestamp(f)),
                Err(x) => Err(x),
            },
            2 => match decode_field(buffer, endian, FieldProfile { base: BaseType::Sint32, profile_type: None, scale: None, offset: None, units: Some("semicircles") }) {
                Ok(f) => Ok(CoursePoint::PositionLat(f)),
                Err(x) => Err(x),
            },
            3 => match decode_field(buffer, endian, FieldProfile { base: BaseType::Sint32, profile_type: None, scale: None, offset: None, units: Some("semicircles") }) {
                Ok(f) => Ok(CoursePoint::PositionLong(f)),
                Err(x) => Err(x),
            },
            4 => match decode_field(buffer, endian, FieldProfile { base: BaseType::Uint32, profile_type: None, scale: Some(Scale { num: 100, den: 1 }), offset: None, units: Some("m") }) {
                Ok(f) => Ok(CoursePoint::Distance(f)),
                Err(x) => Err(x),
            },
            5 => match decode_field(buffer, endian, FieldProfile { base: BaseType::Enum, profile_type: Some(ProfileType::CoursePoint), scale: None, offset: None, units: None }) {
                Ok(f) => Ok(CoursePoint::Type(f)),
                Err(x) => Err(x),
            },
            6 => match decode_field(buffer, endian, FieldProfile { base: BaseType::Utf8String, profile_type: None, scale: None, offset: None, units: None }) {
                Ok(f) => Ok(CoursePoint::Name(f)),
                Err(x) => Err(x),
            },
            8 => match decode_field(buffer, endian, FieldProfile { base: BaseType::Bool, profile_type: None, scale: None, offset: None, units: None }) {
                Ok(f) => Ok(CoursePoint::Favorite(f)),
                Err(x) => Err(x),
            },
            _ => Ok(CoursePoint::Unknown { data: slice_to_vec(buffer), field_def_num }),
        }
    }
}

/// Unique Identification data for a segment file
#[derive(Debug, Clone)]
pub enum SegmentId {
    /// Friendly name assigned to segment
    Name(Field),
    /// UUID of the segment
    Uuid(Field),
    /// Sport associated with the segment
    Sport(Field),
    /// Segment enabled for evaluation
    Enabled(Field),
    /// Primary key of the user that created the segment
    UserProfilePrimaryKey(Field),
    /// ID of the device that created the segment
    DeviceId(Field),
    /// Index for the Leader Board entry selected as the default race participant
    DefaultRaceLeader(Field),
    /// Indicates if any segments should be deleted
    DeleteStatus(Field),
    /// Indicates how the segment was selected to be sent to the device
    SelectionType(Field),
    Unknown { data: Vec<u8>, field_def_num: u8 },
}

impl SegmentId {
    /// The profile entry of each field of this message.
    pub open spec fn profile(field_def_num: u8) -> Option<FieldProfile> {
        match field_def_num {
            0 => Some(FieldProfile { base: BaseType::Utf8String, profile_type: None, scale: None, offset: None, units: None }),
            1 => Some(FieldProfile { base: BaseType::Utf8String, profile_type: None, scale: None, offset: None, units: None }),
            2 => Some(FieldProfile { base: BaseType::Enum, profile_type: Some(ProfileType::Sport), scale: None, offset: None, units: None }),
            3 => Some(FieldProfile { base: BaseType::Bool, profile_type: None, scale: None, offset: None, units: None }),
            4 => Some(FieldProfile { base: BaseType::Uint32, profile_type: None, scale: None, offset: None, units: None }),
            5 => Some(FieldProfile { base: BaseType::Uint32, profile_type: None, scale: None, offset: None, units: None }),
            6 => Some(FieldProfile { base: BaseType::Uint8, profile_type: None, scale: None, offset: None, units: None }),
            7 => Some(FieldProfile { base: BaseType::Enum, profile_type: Some(ProfileType::SegmentDeleteStatus), scale: None, offset: None, units: None }),
            8 => Some(FieldProfile { base: BaseType::Enum, profile_type: Some(ProfileType::SegmentSelectionType), scale: None, offset: None, units: None }),
            _ => None,
        }
    }

    /// The field this value holds.
    pub open spec fn entry(&self) -> FieldEntry {
        match self {
            SegmentId::Name(f) => FieldEntry::Known { num: 0, field: f@ },
            SegmentId::Uuid(f) => FieldEntry::Known { num: 1, field: f@ },
            SegmentId::Sport(f) => FieldEntry::Known { num: 2, field: f@ },
            SegmentId::Enabled(f) => FieldEntry::Known { num: 3, field: f@ },
            SegmentId::UserProfilePrimaryKey(f) => FieldEntry::Known { num: 4, field: f@ },
            SegmentId::DeviceId(f) => FieldEntry::Known { num: 5, field: f@ },
            SegmentId::DefaultRaceLeader(f) => FieldEntry::Known { num: 6, field: f@ },
            SegmentId::DeleteStatus(f) => FieldEntry::Known { num: 7, field: f@ },
            SegmentId::SelectionType(f) => FieldEntry::Known { num: 8, field: f@ },
            SegmentId::Unknown { data, field_def_num } => FieldEntry::Unknown { num: *field_def_num, data: data@ },
        }
    }

    /// Decodes the byte run `buffer` of field `field_def_num` of this message.
    pub fn decode(buffer: &[u8], field_def_num: u8, endian: Endian) -> (r: Result<Self, Error>)
        ensures
            match r {
                Ok(m) => decode_entry(Self::profile(field_def_num), field_def_num, buffer@, endian)
                    == Ok::<FieldEntry, Error>(m.entry()),
                Err(x) => decode_entry(Self::profile(field_def_num), field_def_num, buffer@, endian)
                    == Err::<FieldEntry, Error>(x),
            },
    {
        match field_def_num {
            0 => match decode_field(buffer, endian, FieldProfile { base: BaseType::Utf8String, profile_type: None, scale: None, offset: None, units: None }) {
                Ok(f) => Ok(SegmentId::Name(f)),
                Err(x) => Err(x),
            },
            1 => match decode_field(buffer, endian, FieldProfile { base: BaseType::Utf8String, profile_type: None, scale: None, offset: None, units: None }) {
                Ok(f) => Ok(SegmentId::Uuid(f)),
                Err(x) => Err(x),
            },
            2 => match decode_field(buffer, endian, FieldProfile { base: BaseType::Enum, profile_type: Some(ProfileType::Sport), scale: None, offset: None, units: None }) {
                Ok(f) => Ok(SegmentId::Sport(f)),
                Err(x) => Err(x),
            },
            3 => match decode_field(buffer, endian, FieldProfile { base: BaseType::Bool, profile_type: None, scale: None, offset: None, units: None }) {
                Ok(f) => Ok(SegmentId::Enabled(f)),
                Err(x) => Err(x),
            },
            4 => match decode_field(buffer, endian, FieldProfile { base: BaseType::Uint32, profile_type: None, scale: None, offset: None, units: None }) {
                Ok(f) => Ok(SegmentId::UserProfilePrimaryKey(f)),
                Err(x) => Err(x),
            },
            5 => match decode_field(buffer, endian, FieldProfile { base: BaseType::Uint32, profile_type: None, scale: None, offset: None, units: None }) {
                Ok(f) => Ok(SegmentId::DeviceId(f)),
                Err(x) => Err(x),
            },
            6 => match decode_field(buffer, endian, FieldProfile { base: BaseType::Uint8, profile_type: None, scale: None, offset: None, units: None }) {
                Ok(f) => Ok(SegmentId::DefaultRaceLeader(f)),
                Err(x) => Err(x),
            },
            7 => match decode_field(buffer, endian, FieldProfile { base: BaseType::Enum, profile_type: Some(ProfileType::SegmentDeleteStatus), scale: None, offset: None, units: None }) {
                Ok(f) => Ok(SegmentId::DeleteStatus(f)),
                Err(x) => Err(x),
            },
            8 => match decode_field(buffer, endian, FieldProfile { base: BaseType::Enum, profile_type: Some(ProfileType::SegmentSelectionType), scale: None, offset: None, units: None }) {
                Ok(f) => Ok(SegmentId::SelectionType(f)),
                Err(x) => Err(x),
            },
            _ => Ok(SegmentId::Unknown { data: slice_to_vec(buffer), field_def_num }),
        }
    }
}

/// Unique Identification data for an individual segment leader within a segment file
#[derive(Debug, Clone)]
pub enum SegmentLeaderboardEntry {
    MessageIndex(Field),
    /// Friendly name assigned to leader
    Name(Field),
    /// Leader classification
    Type(Field),
    /// Primary user ID of this leader
    GroupPrimaryKey(Field),
    /// ID of the activity associated with this leader time
    ActivityId(Field),
    /// Segment Time (includes pauses)
    SegmentTime(Field),
    /// String version of the activity_id. 21 characters long, express in decimal
    ActivityIdString(Field),
    Unknown { data: Vec<u8>, field_def_num: u8 },
}

impl SegmentLeaderboardEntry {
    /// The profile entry of each field of this message.
    pub open spec fn profile(field_def_num: u8) -> Option<FieldProfile> {
        match field_def_num {
            254 => Some(FieldProfile { base: BaseType::Uint16, profile_type: Some(ProfileType::MessageIndex), scale: None, offset: None, units: None }),
            0 => Some(FieldProfile { base: BaseType::Utf8String, profile_type: None, scale: None, offset: None, units: None }),
            1 => Some(FieldProfile { base: BaseType::Enum, profile_type: Some(ProfileType::SegmentLeaderboardType), scale: None, offset: None, units: None }),
            2 => Some(FieldProfile { base: BaseType::Uint32, profile_type: None, scale: None, offset: None, units: None }),
            3 => Some(FieldProfile { base: BaseType::Uint32, profile_type: None, scale: None, offset: None, units: None }),
            4 => Some(FieldProfile { base: BaseType::Uint32, profile_type: None, scale: Some(Scale { num: 1000, den: 1 }), offset: None, units: Some("s") }),
            5 => Some(FieldProfile { base: BaseType::Utf8String, profile_type: None, scale: None, offset: None, units: None }),
            _ => None,
        }
    }

    /// The field this value holds.
    pub open spec fn entry(&self) -> FieldEntry {
        match self {
            SegmentLeaderboardEntry::MessageIndex(f) => FieldEntry::Known { num: 254, field: f@ },
            SegmentLeaderboardEntry::Name(f) => FieldEntry::Known { num: 0, field: f@ },
            SegmentLeaderboardEntry::Type(f) => FieldEntry::Known { num: 1, field: f@ },
            SegmentLeaderboardEntry::GroupPrimaryKey(f) => FieldEntry::Known { num: 2, field: f@ },
            SegmentLeaderboardEntry::ActivityId(f) => FieldEntry::Known { num: 3, field: f@ },
            SegmentLeaderboardEntry::SegmentTime(f) => FieldEntry::Known { num: 4, field: f@ },
            SegmentLeaderboardEntry::ActivityIdString(f) => FieldEntry::Known { num: 5, field: f@ },
            SegmentLeaderboardEntry::Unknown { data, field_def_num } => FieldEntry::Unknown { num: *field_def_num, data: data@ },
        }
    }

    /// Decodes the byte run `buffer` of field `field_def_num` of this message.
    pub fn decode(buffer: &[u8], field_def_num: u8, endian: Endian) -> (r: Result<Self, Error>)
        ensures
            match r {
                Ok(m) => decode_entry(Self::profile(field_def_num), field_def_num, buffer@, endian)
                    == Ok::<FieldEntry, Error>(m.entry()),
                Err(x) => decode_entry(Self::profile(field_def_num), field_def_num, buffer@, endian)
                    == Err::<FieldEntry, Error>(x),
            },
    {
        match field_def_num {
            254 => match decode_field(buffer, endian, FieldProfile { base: BaseType::Uint16, profile_type: Some(ProfileType::MessageIndex), scale: None, offset: None, units: None }) {
                Ok(f) => Ok(SegmentLeaderboardEntry::MessageIndex(f)),
                Err(x) => Err(x),
            },
            0 => match decode_field(buffer, endian, FieldProfile { base: BaseType::Utf8String, profile_type: None, scale: None, offset: None, units: None }) {
                Ok(f) => Ok(SegmentLeaderboardEntry::Name(f)),
                Err(x) => Err(x),
            },
            1 => match decode_field(buffer, endian, FieldProfile { base: BaseType::Enum, profile_type: Some(ProfileType::SegmentLeaderboardType), scale: None, offset: None, units: None }) {
                Ok(f) => Ok(SegmentLeaderboardEntry::Type(f)),
                Err(x) => Err(x),
            },
            2 => match decode_field(buffer, endian, FieldProfile { base: BaseType::Uint32, profile_type: None, scale: None, offset: None, units: None }) {
                Ok(f) => Ok(SegmentLeaderboardEntry::GroupPrimaryKey(f)),
                Err(x) => Err(x),
            },
            3 => match decode_field(buffer, endian, FieldProfile { base: BaseType::Uint32, profile_type: None, scale: None, offset: None, units: None }) {
                Ok(f) => Ok(SegmentLeaderboardEntry::ActivityId(f)),
                Err(x) => Err(x),
            },
            4 => match decode_field(buffer, endian, FieldProfile { base: BaseType::Uint32, profile_type: None, scale: Some(Scale { num: 1000, den: 1 }), offset: None, units: Some("s") }) {
                Ok(f) => Ok(SegmentLeaderboardEntry::SegmentTime(f)),
                Err(x) => Err(x),
            },
            5 => match decode_field(buffer, endian, FieldProfile { base: BaseType::Utf8String, profile_type: None, scale: None, offset: None, units: None }) {
                Ok(f) => Ok(SegmentLeaderboardEntry::ActivityIdString(f)),
                Err(x) => Err(x),
            },
            _ => Ok(SegmentLeaderboardEntry::Unknown { data: slice_to_vec(buffer), field_def_num }),
        }
    }
}

/// Navigation and race evaluation point for a segment decribing a point along the segment path and time it took each segment leader to reach that point
#[derive(Debug, Clone)]
pub enum SegmentPoint {
    MessageIndex(Field),
    PositionLat(Field),
    PositionLong(Field),
    /// Accumulated distance along the segment at the described point
    Distance(Field),
    /// Accumulated altitude along the segment at the described point
    Altitude(Field),
    /// Accumualted time each leader board member required to reach the described point. This raw_value is zero for all leader board members at the starting point of the segment.
    LeaderTime(Field),
    Unknown { data: Vec<u8>, field_def_num: u8 },
}

impl SegmentPoint {
    /// The profile entry of each field of this message.
    pub open spec fn profile(field_def_num: u8) -> Option<FieldProfile> {
        match field_def_num {
            254 => Some(FieldProfile { base: BaseType::Uint16, profile_type: Some(ProfileType::MessageIndex), scale: None, offset: None, units: None }),
            1 => Some(FieldProfile { base: BaseType::Sint32, profile_type: None, scale: None, offset: None, units: Some("semicircles") }),
            2 => Some(FieldProfile { base: BaseType::Sint32, profile_type: None, scale: None, offset: None, units: Some("semicircles") }),
            3 => Some(FieldProfile { base: BaseType::Uint32, profile_type: None, scale: Some(Scale { num: 100, den: 1 }), offset: None, units: Some("m") }),
            4 => Some(FieldProfile { base: BaseType::Uint16, profile_type: None, scale: Some(Scale { num: 5, den: 1 }), offset: Some(500), units: Some("m") }),
            5 => Some(FieldProfile { base: BaseType::Uint32, profile_type: None, scale: Some(Scale { num: 1000, den: 1 }), offset: None, units: Some("s") }),
            _ => None,
        }
    }

    /// The field this value holds.
    pub open spec fn entry(&self) -> FieldEntry {
        match self {
            SegmentPoint::MessageIndex(f) => FieldEntry::Known { num: 254, field: f@ },
            SegmentPoint::PositionLat(f) => FieldEntry::Known { num: 1, field: f@ },
            SegmentPoint::PositionLong(f) => FieldEntry::Known { num: 2, field: f@ },
            SegmentPoint::Distance(f) => FieldEntry::Known { num: 3, field: f@ },
            SegmentPoint::Altitude(f) => FieldEntry::Known { num: 4, field: f@ },
            SegmentPoint::LeaderTime(f) => FieldEntry::Known { num: 5, field: f@ },
            SegmentPoint::Unknown { data, field_def_num } => FieldEntry::Unknown { num: *field_def_num, data: data@ },
        }
    }

    /// Decodes the byte run `buffer` of field `field_def_num` of this message.
    pub fn decode(buffer: &[u8], field_def_num: u8, endian: Endian) -> (r: Result<Self, Error>)
        ensures
            match r {
                Ok(m) => decode_entry(Self::profile(field_def_num), field_def_num, buffer@, endian)
                    == Ok::<FieldEntry, Error>(m.entry()),
                Err(x) => decode_entry(Self::profile(field_def_num), field_def_num, buffer@, endian)
                    == Err::<FieldEntry, Error>(x),
            },
    {
        match field_def_num {
            254 => match decode_field(buffer, endian, FieldProfile { base: BaseType::Uint16, profile_type: Some(ProfileType::MessageIndex), scale: None, offset: None, units: None }) {
                Ok(f) => Ok(SegmentPoint::MessageIndex(f)),
                Err(x) => Err(x),
            },
            1 => match decode_field(buffer, endian, FieldProfile { base: BaseType::Sint32, profile_type: None, scale: None, offset: None, units: Some("semicircles") }) {
                Ok(f) => Ok(SegmentPoint::PositionLat(f)),
                Err(x) => Err(x),
            },
            2 => match decode_field(buffer, endian, FieldProfile { base: BaseType::Sint32, profile_type: None, scale: None, offset: None, units: Some("semicircles") }) {
                Ok(f) => Ok(SegmentPoint::PositionLong(f)),
                Err(x) => Err(x),
            },
            3 => match decode_field(buffer, endian, FieldProfile { base: BaseType::Uint32, profile_type: None, scale: Some(Scale { num: 100, den: 1 }), offset: None, units: Some("m") }) {
                Ok(f) => Ok(SegmentPoint::Distance(f)),
                Err(x) => Err(x),
            },
            4 => match decode_field(buffer, endian, FieldProfile { base: BaseType::Uint16, profile_type: None, scale: Some(Scale { num: 5, den: 1 }), offset: Some(500), units: Some("m") }) {
                Ok(f) => Ok(SegmentPoint::Altitude(f)),
                Err(x) => Err(x),
            },
            5 => match decode_field(buffer, endian, FieldProfile { base: BaseType::Uint32, profile_type: None, scale: Some(Scale { num: 1000, den: 1 }), offset: None, units: Some("s") }) {
                Ok(f) => Ok(SegmentPoint::LeaderTime(f)),
                Err(x) => Err(x),
            },
            _ => Ok(SegmentPoint::Unknown { data: slice_to_vec(buffer), field_def_num }),
        }
    }
}

#[derive(Debug, Clone)]
pub enum SegmentLap {
    MessageIndex(Field),
    /// Lap end time.
    Timestamp(Field),
    Event(Field),
    EventType(Field),
    StartTime(Field),
    StartPositionLat(Field),
    StartPositionLong(Field),
    EndPositionLat(Field),
    EndPositionLong(Field),
    /// Time (includes pauses)
    TotalElapsedTime(Field),
    /// Timer Time (excludes pauses)
    TotalTimerTime(Field),
    TotalDistance(Field),
    TotalCycles(Field),
    TotalCalories(Field),
    /// If New Leaf
    TotalFatCalories(Field),
    AvgSpeed(Field),
    MaxSpeed(Field),
    AvgHeartRate(Field),
    MaxHeartRate(Field),
    /// total_cycles / total_timer_time if non_zero_avg_cadence otherwise total_cycles / total_elapsed_time
    AvgCadence(Field),
    MaxCadence(Field),
    /// total_power / total_timer_time if non_zero_avg_power otherwise total_power / total_elapsed_time
    AvgPower(Field),
    MaxPower(Field),
    TotalAscent(Field),
    TotalDescent(Field),
    Sport(Field),
    EventGroup(Field),
    /// North east corner latitude.
    NecLat(Field),
    /// North east corner longitude.
    NecLong(Field),
    /// South west corner latitude.
    SwcLat(Field),
    /// South west corner latitude.
    SwcLong(Field),
    Name(Field),
    NormalizedPower(Field),
    LeftRightBalance(Field),
    SubSport(Field),
    TotalWork(Field),
    AvgAltitude(Field),
    MaxAltitude(Field),
    GpsAccuracy(Field),
    AvgGrade(Field),
    AvgPosGrade(Field),
    AvgNegGrade(Field),
    MaxPosGrade(Field),
    MaxNegGrade(Field),
    AvgTemperature(Field),
    MaxTemperature(Field),
    TotalMovingTime(Field),
    AvgPosVerticalSpeed(Field),
    AvgNegVerticalSpeed(Field),
    MaxPosVerticalSpeed(Field),
    MaxNegVerticalSpeed(Field),
    TimeInHrZone(Field),
    TimeInSpeedZone(Field),
    TimeInCadenceZone(Field),
    TimeInPowerZone(Field),
    RepetitionNum(Field),
    MinAltitude(Field),
    MinHeartRate(Field),
    ActiveTime(Field),
    WktStepIndex(Field),
    SportEvent(Field),
    AvgLeftTorqueEffectiveness(Field),
    AvgRightTorqueEffectiveness(Field),
    AvgLeftPedalSmoothness(Field),
    AvgRightPedalSmoothness(Field),
    AvgCombinedPedalSmoothness(Field),
    Status(Field),
    Uuid(Field),
    /// fractional part of the avg_cadence
    AvgFractionalCadence(Field),
    /// fractional part of the max_cadence
    MaxFractionalCadence(Field),
    /// fractional part of the total_cycles
    TotalFractionalCycles(Field),
    FrontGearShiftCount(Field),
    RearGearShiftCount(Field),
    /// Total time spent in the standing position
    TimeStanding(Field),
    /// Number of transitions to the standing state
    StandCount(Field),
    /// Average left platform center offset
    AvgLeftPco(Field),
    /// Average right platform center offset
    AvgRightPco(Field),
    /// Average left power phase angles. Data raw_value indexes defined by power_phase_type.
    AvgLeftPowerPhase(Field),
    /// Average left power phase peak angles. Data raw_value indexes defined by power_phase_type.
    AvgLeftPowerPhasePeak(Field),
    /// Average right power phase angles. Data raw_value indexes defined by power_phase_type.
    AvgRightPowerPhase(Field),
    /// Average right power phase peak angles. Data raw_value indexes defined by power_phase_type.
    AvgRightPowerPhasePeak(Field),
    /// Average power by position. Data raw_value indexes defined by rider_position_type.
    AvgPowerPosition(Field),
    /// Maximum power by position. Data raw_value indexes defined by rider_position_type.
    MaxPowerPosition(Field),
    /// Average cadence by position. Data raw_value indexes defined by rider_position_type.
    AvgCadencePosition(Field),
    /// Maximum cadence by position. Data raw_value indexes defined by rider_position_type.
    MaxCadencePosition(Field),
    /// Manufacturer that produced the segment
    Manufacturer(Field),
    Unknown { data: Vec<u8>, field_def_num: u8 },
}

impl SegmentLap {
    /// The profile entry of each field of this message.
    pub open spec fn profile(field_def_num: u8) -> Option<FieldProfile> {
        match field_def_num {
            254 => Some(FieldProfile { base: BaseType::Uint16, profile_type: Some(ProfileType::MessageIndex), scale: None, offset: None, units: None }),
            253 => Some(FieldProfile { base: BaseType::Uint32, profile_type: Some(ProfileType::DateTime), scale: None, offset: None, units: Some("s") }),
            0 => Some(FieldProfile { base: BaseType::Enum, profile_type: Some(ProfileType::Event), scale: None, offset: None, units: None }),
            1 => Some(FieldProfile { base: BaseType::Enum, profile_type: Some(ProfileType::EventType), scale: None, offset: None, units: None }),
            2 => Some(FieldProfile { base: BaseType::Uint32, profile_type: Some(ProfileType::DateTime), scale: None, offset: None, units: None }),
            3 => Some(FieldProfile { base: BaseType::Sint32, profile_type: None, scale: None, offset: None, units: Some("semicircles") }),
            4 => Some(FieldProfile { base: BaseType::Sint32, profile_type: None, scale: None, offset: None, units: Some("semicircles") }),
            5 => Some(FieldProfile { base: BaseType::Sint32, profile_type: None, scale: None, offset: None, units: Some("semicircles") }),
            6 => Some(FieldProfile { base: BaseType::Sint32, profile_type: None, scale: None, offset: None, units: Some("semicircles") }),
            7 => Some(FieldProfile { base: BaseType::Uint32, profile_type: None, scale: Some(Scale { num: 1000, den: 1 }), offset: None, units: Some("s") }),
            8 => Some(FieldProfile { base: BaseType::Uint32, profile_type: None, scale: Some(Scale { num: 1000, den: 1 }), offset: None, units: Some("s") }),
            9 => Some(FieldProfile { base: BaseType::Uint32, profile_type: None, scale: Some(Scale { num: 100, den: 1 }), offset: None, units: Some("m") }),
            10 => Some(FieldProfile { base: BaseType::Uint32, profile_type: None, scale: None, offset: None, units: Some("cycles") }),
            11 => Some(FieldProfile { base: BaseType::Uint16, profile_type: None, scale: None, offset: None, units: Some("kcal") }),
            12 => Some(FieldProfile { base: BaseType::Uint16, profile_type: None, scale: None, offset: None, units: Some("kcal") }),
            13 => Some(FieldProfile { base: BaseType::Uint16, profile_type: None, scale: Some(Scale { num: 1000, den: 1 }), offset: None, units: Some("m/s") }),
            14 => Some(FieldProfile { base: BaseType::Uint16, profile_type: None, scale: Some(Scale { num: 1000, den: 1 }), offset: None, units: Some("m/s") }),
            15 => Some(FieldProfile { base: BaseType::Uint8, profile_type: None, scale: None, offset: None, units: Some("bpm") }),
            16 => Some(FieldProfile { base: BaseType::Uint8, profile_type: None, scale: None, offset: None, units: Some("bpm") }),
            17 => Some(FieldProfile { base: BaseType::Uint8, profile_type: None, scale: None, offset: None, units: Some("rpm") }),
            18 => Some(FieldProfile { base: BaseType::Uint8, profile_type: None, scale: None, offset: None, units: Some("rpm") }),
            19 => Some(FieldProfile { base: BaseType::Uint16, profile_type: None, scale: None, offset: None, units: Some("watts") }),
            20 => Some(FieldProfile { base: BaseType::Uint16, profile_type: None, scale: None, offset: None, units: Some("watts") }),
            21 => Some(FieldProfile { base: BaseType::Uint16, profile_type: None, scale: None, offset: None, units: Some("m") }),
            22 => Some(FieldProfile { base: BaseType::Uint16, profile_type: None, scale: None, offset: None, units: Some("m") }),
            23 => Some(FieldProfile { base: BaseType::Enum, profile_type: Some(ProfileType::Sport), scale: None, offset: None, units: None }),
            24 => Some(FieldProfile { base: BaseType::Uint8, profile_type: None, scale: None, offset: None, units: None }),
            25 => Some(FieldProfile { base: BaseType::Sint32, profile_type: None, scale: None, offset: None, units: Some("semicircles") }),
            26 => Some(FieldProfile { base: BaseType::Sint32, profile_type: None, scale: None, offset: None, units: Some("semicircles") }),
            27 => Some(FieldProfile { base: BaseType::Sint32, profile_type: None, scale: None, offset: None, units: Some("semicircles") }),
            28 => Some(FieldProfile { base: BaseType::Sint32, profile_type: None, scale: None, offset: None, units: Some("semicircles") }),
            29 => Some(FieldProfile { base: BaseType::Utf8String, profile_type: None, scale: None, offset: None, units: None }),
            30 => Some(FieldProfile { base: BaseType::Uint16, profile_type: None, scale: None, offset: None, units: Some("watts") }),
            31 => Some(FieldProfile { base: BaseType::Uint16, profile_type: Some(ProfileType::LeftRightBalance100), scale: None, offset: None, units: None }),
            32 => Some(FieldProfile { base: BaseType::Enum, profile_type: Some(ProfileType::SubSport), scale: None, offset: None, units: None }),
            33 => Some(FieldProfile { base: BaseType::Uint32, profile_type: None, scale: None, offset: None, units: Some("J") }),
            34 => Some(FieldProfile { base: BaseType::Uint16, profile_type: None, scale: Some(Scale { num: 5, den: 1 }), offset: Some(500), units: Some("m") }),
            35 => Some(FieldProfile { base: BaseType::Uint16, profile_type: None, scale: Some(Scale { num: 5, den: 1 }), offset: Some(500), units: Some("m") }),
            36 => Some(FieldProfile { base: BaseType::Uint8, profile_type: None, scale: None, offset: None, units: Some("m") }),
            37 => Some(FieldProfile { base: BaseType::Sint16, profile_type: None, scale: Some(Scale { num: 100, den: 1 }), offset: None, units: Some("%") }),
            38 => Some(FieldProfile { base: BaseType::Sint16, profile_type: None, scale: Some(Scale { num: 100, den: 1 }), offset: None, units: Some("%") }),
            39 => Some(FieldProfile { base: BaseType::Sint16, profile_type: None, scale: Some(Scale { num: 100, den: 1 }), offset: None, units: Some("%") }),
            40 => Some(FieldProfile { base: BaseType::Sint16, profile_type: None, scale: Some(Scale { num: 100, den: 1 }), offset: None, units: Some("%") }),
            41 => Some(FieldProfile { base: BaseType::Sint16, profile_type: None, scale: Some(Scale { num: 100, den: 1 }), offset: None, units: Some("%") }),
            42 => Some(FieldProfile { base: BaseType::Sint8, profile_type: None, scale: None, offset: None, units: Some("C") }),
            43 => Some(FieldProfile { base: BaseType::Sint8, profile_type: None, scale: None, offset: None, units: Some("C") }),
            44 => Some(FieldProfile { base: BaseType::Uint32, profile_type: None, scale: Some(Scale { num: 1000, den: 1 }), offset: None, units: Some("s") }),
            45 => Some(FieldProfile { base: BaseType::Sint16, profile_type: None, scale: Some(Scale { num: 1000, den: 1 }), offset: None, units: Some("m/s") }),
            46 => Some(FieldProfile { base: BaseType::Sint16, profile_type: None, scale: Some(Scale { num: 1000, den: 1 }), offset: None, units: Some("m/s") }),
            47 => Some(FieldProfile { base: BaseType::Sint16, profile_type: None, scale: Some(Scale { num: 1000, den: 1 }), offset: None, units: Some("m/s") }),
            48 => Some(FieldProfile { base: BaseType::Sint16, profile_type: None, scale: Some(Scale { num: 1000, den: 1 }), offset: None, units: Some("m/s") }),
            49 => Some(FieldProfile { base: BaseType::Uint32, profile_type: None, scale: Some(Scale { num: 1000, den: 1 }), offset: None, units: Some("s") }),
            50 => Some(FieldProfile { base: BaseType::Uint32, profile_type: None, scale: Some(Scale { num: 1000, den: 1 }), offset: None, units: Some("s") }),
            51 => Some(FieldProfile { base: BaseType::Uint32, profile_type: None, scale: Some(Scale { num: 1000, den: 1 }), offset: None, units: Some("s") }),
            52 => Some(FieldProfile { base: BaseType::Uint32, profile_type: None, scale: Some(Scale { num: 1000, den: 1 }), offset: None, units: Some("s") }),
            53 => Some(FieldProfile { base: BaseType::Uint16, profile_type: None, scale: None, offset: None, units: None }),
            54 => Some(FieldProfile { base: BaseType::Uint16, profile_type: None, scale: Some(Scale { num: 5, den: 1 }), offset: Some(500), units: Some("m") }),
            55 => Some(FieldProfile { base: BaseType::Uint8, profile_type: None, scale: None, offset: None, units: Some("bpm") }),
            56 => Some(FieldProfile { base: BaseType::Uint32, profile_type: None, scale: Some(Scale { num: 1000, den: 1 }), offset: None, units: Some("s") }),
            57 => Some(FieldProfile { base: BaseType::Uint16, profile_type: Some(ProfileType::MessageIndex), scale: None, offset: None, units: None }),
            58 => Some(FieldProfile { base: BaseType::Enum, profile_type: Some(ProfileType::SportEvent), scale: None, offset: None, units: None }),
            59 => Some(FieldProfile { base: BaseType::Uint8, profile_type: None, scale: Some(Scale { num: 2, den: 1 }), offset: None, units: Some("percent") }),
            60 => Some(FieldProfile { base: BaseType::Uint8, profile_type: None, scale: Some(Scale { num: 2, den: 1 }), offset: None, units: Some("percent") }),
            61 => Some(FieldProfile { base: BaseType::Uint8, profile_type: None, scale: Some(Scale { num: 2, den: 1 }), offset: None, units: Some("percent") }),
            62 => Some(FieldProfile { base: BaseType::Uint8, profile_type: None, scale: Some(Scale { num: 2, den: 1 }), offset: None, units: Some("percent") }),
            63 => Some(FieldProfile { base: BaseType::Uint8, profile_type: None, scale: Some(Scale { num: 2, den: 1 }), offset: None, units: Some("percent") }),
            64 => Some(FieldProfile { base: BaseType::Enum, profile_type: Some(ProfileType::SegmentLapStatus), scale: None, offset: None, units: None }),
            65 => Some(FieldProfile { base: BaseType::Utf8String, profile_type: None, scale: None, offset: None, units: None }),
            66 => Some(FieldProfile { base: BaseType::Uint8, profile_type: None, scale: Some(Scale { num: 128, den: 1 }), offset: None, units: Some("rpm") }),
            67 => Some(FieldProfile { base: BaseType::Uint8, profile_type: None, scale: Some(Scale { num: 128, den: 1 }), offset: None, units: Some("rpm") }),
            68 => Some(FieldProfile { base: BaseType::Uint8, profile_type: None, scale: Some(Scale { num: 128, den: 1 }), offset: None, units: Some("cycles") }),
            69 => Some(FieldProfile { base: BaseType::Uint16, profile_type: None, scale: None, offset: None, units: None }),
            70 => Some(FieldProfile { base: BaseType::Uint16, profile_type: None, scale: None, offset: None, units: None }),
            71 => Some(FieldProfile { base: BaseType::Uint32, profile_type: None, scale: Some(Scale { num: 1000, den: 1 }), offset: None, units: Some("s") }),
            72 => Some(FieldProfile { base: BaseType::Uint16, profile_type: None, scale: None, offset: None, units: None }),
            73 => Some(FieldProfile { base: BaseType::Sint8, profile_type: None, scale: None, offset: None, units: Some("mm") }),
            74 => Some(FieldProfile { base: BaseType::Sint8, profile_type: None, scale: None, offset: None, units: Some("mm") }),
            75 => Some(FieldProfile { base: BaseType::Uint8, profile_type: None, scale: Some(Scale { num: 7111111, den: 10000000 }), offset: None, units: Some("degrees") }),
            76 => Some(FieldProfile { base: BaseType::Uint8, profile_type: None, scale: Some(Scale { num: 7111111, den: 10000000 }), offset: None, units: Some("degrees") }),
            77 => Some(FieldProfile { base: BaseType::Uint8, profile_type: None, scale: Some(Scale { num: 7111111, den: 10000000 }), offset: None, units: Some("degrees") }),
            78 => Some(FieldProfile { base: BaseType::Uint8, profile_type: None, scale: Some(Scale { num: 7111111, den: 10000000 }), offset: None, units: Some("degrees") }),
            79 => Some(FieldProfile { base: BaseType::Uint16, profile_type: None, scale: None, offset: None, units: Some("watts") }),
            80 => Some(FieldProfile { base: BaseType::Uint16, profile_type: None, scale: None, offset: None, units: Some("watts") }),
            81 => Some(FieldProfile { base: BaseType::Uint8, profile_type: None, scale: None, offset: None, units: Some("rpm") }),
            82 => Some(FieldProfile { base: BaseType::Uint8, profile_type: None, scale: None, offset: None, units: Some("rpm") }),
            83 => Some(FieldProfile { base: BaseType::Uint16, profile_type: Some(ProfileType::Manufacturer), scale: None, offset: None, units: None }),
            _ => None,
        }
    }

    /// The field this value holds.
    pub open spec fn entry(&self) -> FieldEntry {
        match self {
            SegmentLap::MessageIndex(f) => FieldEntry::Known { num: 254, field: f@ },
            SegmentLap::Timestamp(f) => FieldEntry::Known { num: 253, field: f@ },
            SegmentLap::Event(f) => FieldEntry::Known { num: 0, field: f@ },
            SegmentLap::EventType(f) => FieldEntry::Known { num: 1, field: f@ },
            SegmentLap::StartTime(f) => FieldEntry::Known { num: 2, field: f@ },
            SegmentLap::StartPositionLat(f) => FieldEntry::Known { num: 3, field: f@ },
            SegmentLap::StartPositionLong(f) => FieldEntry::Known { num: 4, field: f@ },
            SegmentLap::EndPositionLat(f) => FieldEntry::Known { num: 5, field: f@ },
            SegmentLap::EndPositionLong(f) => FieldEntry::Known { num: 6, field: f@ },
            SegmentLap::TotalElapsedTime(f) => FieldEntry::Known { num: 7, field: f@ },
            SegmentLap::TotalTimerTime(f) => FieldEntry::Known { num: 8, field: f@ },
            SegmentLap::TotalDistance(f) => FieldEntry::Known { num: 9, field: f@ },
            SegmentLap::TotalCycles(f) => FieldEntry::Known { num: 10, field: f@ },
            SegmentLap::TotalCalories(f) => FieldEntry::Known { num: 11, field: f@ },
            SegmentLap::TotalFatCalories(f) => FieldEntry::Known { num: 12, field: f@ },
            SegmentLap::AvgSpeed(f) => FieldEntry::Known { num: 13, field: f@ },
            SegmentLap::MaxSpeed(f) => FieldEntry::Known { num: 14, field: f@ },
            SegmentLap::AvgHeartRate(f) => FieldEntry::Known { num: 15, field: f@ },
            SegmentLap::MaxHeartRate(f) => FieldEntry::Known { num: 16, field: f@ },
            SegmentLap::AvgCadence(f) => FieldEntry::Known { num: 17, field: f@ },
            SegmentLap::MaxCadence(f) => FieldEntry::Known { num: 18, field: f@ },
            SegmentLap::AvgPower(f) => FieldEntry::Known { num: 19, field: f@ },
            SegmentLap::MaxPower(f) => FieldEntry::Known { num: 20, field: f@ },
            SegmentLap::TotalAscent(f) => FieldEntry::Known { num: 21, field: f@ },
            SegmentLap::TotalDescent(f) => FieldEntry::Known { num: 22, field: f@ },
            SegmentLap::Sport(f) => FieldEntry::Known { num: 23, field: f@ },
            SegmentLap::EventGroup(f) => FieldEntry::Known { num: 24, field: f@ },
            SegmentLap::NecLat(f) => FieldEntry::Known { num: 25, field: f@ },
            SegmentLap::NecLong(f) => FieldEntry::Known { num: 26, field: f@ },
            SegmentLap::SwcLat(f) => FieldEntry::Known { num: 27, field: f@ },
            SegmentLap::SwcLong(f) => FieldEntry::Known { num: 28, field: f@ },
            SegmentLap::Name(f) => FieldEntry::Known { num: 29, field: f@ },
            SegmentLap::NormalizedPower(f) => FieldEntry::Known { num: 30, field: f@ },
            SegmentLap::LeftRightBalance(f) => FieldEntry::Known { num: 31, field: f@ },
            SegmentLap::SubSport(f) => FieldEntry::Known { num: 32, field: f@ },
            SegmentLap::TotalWork(f) => FieldEntry::Known { num: 33, field: f@ },
            SegmentLap::AvgAltitude(f) => FieldEntry::Known { num: 34, field: f@ },
            SegmentLap::MaxAltitude(f) => FieldEntry::Known { num: 35, field: f@ },
            SegmentLap::GpsAccuracy(f) => FieldEntry::Known { num: 36, field: f@ },
            SegmentLap::AvgGrade(f) => FieldEntry::Known { num: 37, field: f@ },
            SegmentLap::AvgPosGrade(f) => FieldEntry::Known { num: 38, field: f@ },
            SegmentLap::AvgNegGrade(f) => FieldEntry::Known { num: 39, field: f@ },
            SegmentLap::MaxPosGrade(f) => FieldEntry::Known { num: 40, field: f@ },
            SegmentLap::MaxNegGrade(f) => FieldEntry::Known { num: 41, field: f@ },
            SegmentLap::AvgTemperature(f) => FieldEntry::Known { num: 42, field: f@ },
            SegmentLap::MaxTemperature(f) => FieldEntry::Known { num: 43, field: f@ },
            SegmentLap::TotalMovingTime(f) => FieldEntry::Known { num: 44, field: f@ },
            SegmentLap::AvgPosVerticalSpeed(f) => FieldEntry::Known { num: 45, field: f@ },
            SegmentLap::AvgNegVerticalSpeed(f) => FieldEntry::Known { num: 46, field: f@ },
            SegmentLap::MaxPosVerticalSpeed(f) => FieldEntry::Known { num: 47, field: f@ },
            SegmentLap::MaxNegVerticalSpeed(f) => FieldEntry::Known { num: 48, field: f@ },
            SegmentLap::TimeInHrZone(f) => FieldEntry::Known { num: 49, field: f@ },
            SegmentLap::TimeInSpeedZone(f) => FieldEntry::Known { num: 50, field: f@ },
            SegmentLap::TimeInCadenceZone(f) => FieldEntry::Known { num: 51, field: f@ },
            SegmentLap::TimeInPowerZone(f) => FieldEntry::Known { num: 52, field: f@ },
            SegmentLap::RepetitionNum(f) => FieldEntry::Known { num: 53, field: f@ },
            SegmentLap::MinAltitude(f) => FieldEntry::Known { num: 54, field: f@ },
            SegmentLap::MinHeartRate(f) => FieldEntry::Known { num: 55, field: f@ },
            SegmentLap::ActiveTime(f) => FieldEntry::Known { num: 56, field: f@ },
            SegmentLap::WktStepIndex(f) => FieldEntry::Known { num: 57, field: f@ },
            SegmentLap::SportEvent(f) => FieldEntry::Known { num: 58, field: f@ },
            SegmentLap::AvgLeftTorqueEffectiveness(f) => FieldEntry::Known { num: 59, field: f@ },
            SegmentLap::AvgRightTorqueEffectiveness(f) => FieldEntry::Known { num: 60, field: f@ },
            SegmentLap::AvgLeftPedalSmoothness(f) => FieldEntry::Known { num: 61, field: f@ },
            SegmentLap::AvgRightPedalSmoothness(f) => FieldEntry::Known { num: 62, field: f@ },
            SegmentLap::AvgCombinedPedalSmoothness(f) => FieldEntry::Known { num: 63, field: f@ },
            SegmentLap::Status(f) => FieldEntry::Known { num: 64, field: f@ },
            SegmentLap::Uuid(f) => FieldEntry::Known { num: 65, field: f@ },
            SegmentLap::AvgFractionalCadence(f) => FieldEntry::Known { num: 66, field: f@ },
            SegmentLap::MaxFractionalCadence(f) => FieldEntry::Known { num: 67, field: f@ },
            SegmentLap::TotalFractionalCycles(f) => FieldEntry::Known { num: 68, field: f@ },
            SegmentLap::FrontGearShiftCount(f) => FieldEntry::Known { num: 69, field: f@ },
            SegmentLap::RearGearShiftCount(f) => FieldEntry::Known { num: 70, field: f@ },
            SegmentLap::TimeStanding(f) => FieldEntry::Known { num: 71, field: f@ },
            SegmentLap::StandCount(f) => FieldEntry::Known { num: 72, field: f@ },
            SegmentLap::AvgLeftPco(f) => FieldEntry::Known { num: 73, field: f@ },
            SegmentLap::AvgRightPco(f) => FieldEntry::Known { num: 74, field: f@ },
            SegmentLap::AvgLeftPowerPhase(f) => FieldEntry::Known { num: 75, field: f@ },
            SegmentLap::AvgLeftPowerPhasePeak(f) => FieldEntry::Known { num: 76, field: f@ },
            SegmentLap::AvgRightPowerPhase(f) => FieldEntry::Known { num: 77, field: f@ },
            SegmentLap::AvgRightPowerPhasePeak(f) => FieldEntry::Known { num: 78, field: f@ },
            SegmentLap::AvgPowerPosition(f) => FieldEntry::Known { num: 79, field: f@ },
            SegmentLap::MaxPowerPosition(f) => FieldEntry::Known { num: 80, field: f@ },
            SegmentLap::AvgCadencePosition(f) => FieldEntry::Known { num: 81, field: f@ },
            SegmentLap::MaxCadencePosition(f) => FieldEntry::Known { num: 82, field: f@ },
            SegmentLap::Manufacturer(f) => FieldEntry::Known { num: 83, field: f@ },
            SegmentLap::Unknown { data, field_def_num } => FieldEntry::Unknown { num: *field_def_num, data: data@ },
        }
    }

    /// Decodes the byte run `buffer` of field `field_def_num` of this message.
    #[verifier::spinoff_prover]
    #[verifier::rlimit(100)]
    pub fn decode(buffer: &[u8], field_def_num: u8, endian: Endian) -> (r: Result<Self, Error>)
        ensures
            match r {
                Ok(m) => decode_entry(Self::profile(field_def_num), field_def_num, buffer@, endian)
                    == Ok::<FieldEntry, Error>(m.entry()),
                Err(x) => decode_entry(Self::profile(field_def_num), field_def_num, buffer@, endian)
                    == Err::<FieldEntry, Error>(x),
            },
    {
        match field_def_num {
            254 => match decode_field(buffer, endian, FieldProfile { base: BaseType::Uint16, profile_type: Some(ProfileType::MessageIndex), scale: None, offset: None, units: None }) {
                Ok(f) => Ok(SegmentLap::MessageIndex(f)),
                Err(x) => Err(x),
            },
            253 => match decode_field(buffer, endian, FieldProfile { base: BaseType::Uint32, profile_type: Some(ProfileType::DateTime), scale: None, offset: None, units: Some("s") }) {
                Ok(f) => Ok(SegmentLap::Timestamp(f)),
                Err(x) => Err(x),
            },
            0 => match decode_field(buffer, endian, FieldProfile { base: BaseType::Enum, profile_type: Some(ProfileType::Event), scale: None, offset: None, units: None }) {
                Ok(f) => Ok(SegmentLap::Event(f)),
                Err(x) => Err(x),
            },
            1 => match decode_field(buffer, endian, FieldProfile { base: BaseType::Enum, profile_type: Some(ProfileType::EventType), scale: None, offset: None, units: None }) {
                Ok(f) => Ok(SegmentLap::EventType(f)),
                Err(x) => Err(x),
            },
            2 => match decode_field(buffer, endian, FieldProfile { base: BaseType::Uint32, profile_type: Some(ProfileType::DateTime), scale: None, offset: None, units: None }) {
                Ok(f) => Ok(SegmentLap::StartTime(f)),
                Err(x) => Err(x),
            },
            3 => match decode_field(buffer, endian, FieldProfile { base: BaseType::Sint32, profile_type: None, scale: None, offset: None, units: Some("semicircles") }) {
                Ok(f) => Ok(SegmentLap::StartPositionLat(f)),
                Err(x) => Err(x),
            },
            4 => match decode_field(buffer, endian, FieldProfile { base: BaseType::Sint32, profile_type: None, scale: None, offset: None, units: Some("semicircles") }) {
                Ok(f) => Ok(SegmentLap::StartPositionLong(f)),
                Err(x) => Err(x),
            },
            5 => match decode_field(buffer, endian, FieldProfile { base: BaseType::Sint32, profile_type: None, scale: None, offset: None, units: Some("semicircles") }) {
                Ok(f) => Ok(SegmentLap::EndPositionLat(f)),
                Err(x) => Err(x),
            },
            6 => match decode_field(buffer, endian, FieldProfile { base: BaseType::Sint32, profile_type: None, scale: None, offset: None, units: Some("semicircles") }) {
                Ok(f) => Ok(SegmentLap::EndPositionLong(f)),
                Err(x) => Err(x),
            },
            7 => match decode_field(buffer, endian, FieldProfile { base: BaseType::Uint32, profile_type: None, scale: Some(Scale { num: 1000, den: 1 }), offset: None, units: Some("s") }) {
                Ok(f) => Ok(SegmentLap::TotalElapsedTime(f)),
                Err(x) => Err(x),
            },
            8 => match decode_field(buffer, endian, FieldProfile { base: BaseType::Uint32, profile_type: None, scale: Some(Scale { num: 1000, den: 1 }), offset: None, units: Some("s") }) {
                Ok(f) => Ok(SegmentLap::TotalTimerTime(f)),
                Err(x) => Err(x),
            },
            9 => match decode_field(buffer, endian, FieldProfile { base: BaseType::Uint32, profile_type: None, scale: Some(Scale { num: 100, den: 1 }), offset: None, units: Some("m") }) {
                Ok(f) => Ok(SegmentLap::TotalDistance(f)),
                Err(x) => Err(x),
            },
            10 => match decode_field(buffer, endian, FieldProfile { base: BaseType::Uint32, profile_type: None, scale: None, offset: None, units: Some("cycles") }) {
                Ok(f) => Ok(SegmentLap::TotalCycles(f)),
                Err(x) => Err(x),
            },
            11 => match decode_field(buffer, endian, FieldProfile { base: BaseType::Uint16, profile_type: None, scale: None, offset: None, units: Some("kcal") }) {
                Ok(f) => Ok(SegmentLap::TotalCalories(f)),
                Err(x) => Err(x),
            },
            12 => match decode_field(buffer, endian, FieldProfile { base: BaseType::Uint16, profile_type: None, scale: None, offset: None, units: Some("kcal") }) {
                Ok(f) => Ok(SegmentLap::TotalFatCalories(f)),
                Err(x) => Err(x),
            },
            13 => match decode_field(buffer, endian, FieldProfile { base: BaseType::Uint16, profile_type: None, scale: Some(Scale { num: 1000, den: 1 }), offset: None, units: Some("m/s") }) {
                Ok(f) => Ok(SegmentLap::AvgSpeed(f)),
                Err(x) => Err(x),
            },
            14 => match decode_field(buffer, endian, FieldProfile { base: BaseType::Uint16, profile_type: None, scale: Some(Scale { num: 1000, den: 1 }), offset: None, units: Some("m/s") }) {
                Ok(f) => Ok(SegmentLap::MaxSpeed(f)),
                Err(x) => Err(x),
            },
            15 => match decode_field(buffer, endian, FieldProfile { base: BaseType::Uint8, profile_type: None, scale: None, offset: None, units: Some("bpm") }) {
                Ok(f) => Ok(SegmentLap::AvgHeartRate(f)),
                Err(x) => Err(x),
            },
            16 => match decode_field(buffer, endian, FieldProfile { base: BaseType::Uint8, profile_type: None, scale: None, offset: None, units: Some("bpm") }) {
                Ok(f) => Ok(SegmentLap::MaxHeartRate(f)),
                Err(x) => Err(x),
            },
            17 => match decode_field(buffer, endian, FieldProfile { base: BaseType::Uint8, profile_type: None, scale: None, offset: None, units: Some("rpm") }) {
                Ok(f) => Ok(SegmentLap::AvgCadence(f)),
                Err(x) => Err(x),
            },
            18 => match decode_field(buffer, endian, FieldProfile { base: BaseType::Uint8, profile_type: None, scale: None, offset: None, units: Some("rpm") }) {
                Ok(f) => Ok(SegmentLap::MaxCadence(f)),
                Err(x) => Err(x),
            },
            19 => match decode_field(buffer, endian, FieldProfile { base: BaseType::Uint16, profile_type: None, scale: None, offset: None, units: Some("watts") }) {
                Ok(f) => Ok(SegmentLap::AvgPower(f)),
                Err(x) => Err(x),
            },
            20 => match decode_field(buffer, endian, FieldProfile { base: BaseType::Uint16, profile_type: None, scale: None, offset: None, units: Some("watts") }) {
                Ok(f) => Ok(SegmentLap::MaxPower(f)),
                Err(x) => Err(x),
            },
            21 => match decode_field(buffer, endian, FieldProfile { base: BaseType::Uint16, profile_type: None, scale: None, offset: None, units: Some("m") }) {
                Ok(f) => Ok(SegmentLap::TotalAscent(f)),
                Err(x) => Err(x),
            },
            22 => match decode_field(buffer, endian, FieldProfile { base: BaseType::Uint16, profile_type: None, scale: None, offset: None, units: Some("m") }) {
                Ok(f) => Ok(SegmentLap::TotalDescent(f)),
                Err(x) => Err(x),
            },
            23 => match decode_field(buffer, endian, FieldProfile { base: BaseType::Enum, profile_type: Some(ProfileType::Sport), scale: None, offset: None, units: None }) {
                Ok(f) => Ok(SegmentLap::Sport(f)),
                Err(x) => Err(x),
            },
            24 => match decode_field(buffer, endian, FieldProfile { base: BaseType::Uint8, profile_type: None, scale: None, offset: None, units: None }) {
                Ok(f) => Ok(SegmentLap::EventGroup(f)),
                Err(x) => Err(x),
            },
            25 => match decode_field(buffer, endian, FieldProfile { base: BaseType::Sint32, profile_type: None, scale: None, offset: None, units: Some("semicircles") }) {
                Ok(f) => Ok(SegmentLap::NecLat(f)),
                Err(x) => Err(x),
            },
            26 => match decode_field(buffer, endian, FieldProfile { base: BaseType::Sint32, profile_type: None, scale: None, offset: None, units: Some("semicircles") }) {
                Ok(f) => Ok(SegmentLap::NecLong(f)),
                Err(x) => Err(x),
            },
            27 => match decode_field(buffer, endian, FieldProfile { base: BaseType::Sint32, profile_type: None, scale: None, offset: None, units: Some("semicircles") }) {
                Ok(f) => Ok(SegmentLap::SwcLat(f)),
                Err(x) => Err(x),
            },
            28 => match decode_field(buffer, endian, FieldProfile { base: BaseType::Sint32, profile_type: None, scale: None, offset: None, units: Some("semicircles") }) {
                Ok(f) => Ok(SegmentLap::SwcLong(f)),
                Err(x) => Err(x),
            },
            29 => match decode_field(buffer, endian, FieldProfile { base: BaseType::Utf8String, profile_type: None, scale: None, offset: None, units: None }) {
                Ok(f) => Ok(SegmentLap::Name(f)),
                Err(x) => Err(x),
            },
            30 => match decode_field(buffer, endian, FieldProfile { base: BaseType::Uint16, profile_type: None, scale: None, offset: None, units: Some("watts") }) {
                Ok(f) => Ok(SegmentLap::NormalizedPower(f)),
                Err(x) => Err(x),
            },
            31 => match decode_field(buffer, endian, FieldProfile { base: BaseType::Uint16, profile_type: Some(ProfileType::LeftRightBalance100), scale: None, offset: None, units: None }) {
                Ok(f) => Ok(SegmentLap::LeftRightBalance(f)),
                Err(x) => Err(x),
            },
            32 => match decode_field(buffer, endian, FieldProfile { base: BaseType::Enum, profile_type: Some(ProfileType::SubSport), scale: None, offset: None, units: None }) {
                Ok(f) => Ok(SegmentLap::SubSport(f)),
                Err(x) => Err(x),
            },
            33 => match decode_field(buffer, endian, FieldProfile { base: BaseType::Uint32, profile_type: None, scale: None, offset: None, units: Some("J") }) {
                Ok(f) => Ok(SegmentLap::TotalWork(f)),
                Err(x) => Err(x),
            },
            34 => match decode_field(buffer, endian, FieldProfile { base: BaseType::Uint16, profile_type: None, scale: Some(Scale { num: 5, den: 1 }), offset: Some(500), units: Some("m") }) {
                Ok(f) => Ok(SegmentLap::AvgAltitude(f)),
                Err(x) => Err(x),
            },
            35 => match decode_field(buffer, endian, FieldProfile { base: BaseType::Uint16, profile_type: None, scale: Some(Scale { num: 5, den: 1 }), offset: Some(500), units: Some("m") }) {
                Ok(f) => Ok(SegmentLap::MaxAltitude(f)),
                Err(x) => Err(x),
            },
            36 => match decode_field(buffer, endian, FieldProfile { base: BaseType::Uint8, profile_type: None, scale: None, offset: None, units: Some("m") }) {
                Ok(f) => Ok(SegmentLap::GpsAccuracy(f)),
                Err(x) => Err(x),
            },
            37 => match decode_field(buffer, endian, FieldProfile { base: BaseType::Sint16, profile_type: None, scale: Some(Scale { num: 100, den: 1 }), offset: None, units: Some("%") }) {
                Ok(f) => Ok(SegmentLap::AvgGrade(f)),
                Err(x) => Err(x),
            },
            38 => match decode_field(buffer, endian, FieldProfile { base: BaseType::Sint16, profile_type: None, scale: Some(Scale { num: 100, den: 1 }), offset: None, units: Some("%") }) {
                Ok(f) => Ok(SegmentLap::AvgPosGrade(f)),
                Err(x) => Err(x),
            },
            39 => match decode_field(buffer, endian, FieldProfile { base: BaseType::Sint16, profile_type: None, scale: Some(Scale { num: 100, den: 1 }), offset: None, units: Some("%") }) {
                Ok(f) => Ok(SegmentLap::AvgNegGrade(f)),
                Err(x) => Err(x),
            },
            40 => match decode_field(buffer, endian, FieldProfile { base: BaseType::Sint16, profile_type: None, scale: Some(Scale { num: 100, den: 1 }), offset: None, units: Some("%") }) {
                Ok(f) => Ok(SegmentLap::MaxPosGrade(f)),
                Err(x) => Err(x),
            },
            41 => match decode_field(buffer, endian, FieldProfile { base: BaseType::Sint16, profile_type: None, scale: Some(Scale { num: 100, den: 1 }), offset: None, units: Some("%") }) {
                Ok(f) => Ok(SegmentLap::MaxNegGrade(f)),
                Err(x) => Err(x),
            },
            42 => match decode_field(buffer, endian, FieldProfile { base: BaseType::Sint8, profile_type: None, scale: None, offset: None, units: Some("C") }) {
                Ok(f) => Ok(SegmentLap::AvgTemperature(f)),
                Err(x) => Err(x),
            },
            43 => match decode_field(buffer, endian, FieldProfile { base: BaseType::Sint8, profile_type: None, scale: None, offset: None, units: Some("C") }) {
                Ok(f) => Ok(SegmentLap::MaxTemperature(f)),
                Err(x) => Err(x),
            },
            44 => match decode_field(buffer, endian, FieldProfile { base: BaseType::Uint32, profile_type: None, scale: Some(Scale { num: 1000, den: 1 }), offset: None, units: Some("s") }) {
                Ok(f) => Ok(SegmentLap::TotalMovingTime(f)),
                Err(x) => Err(x),
            },
            45 => match decode_field(buffer, endian, FieldProfile { base: BaseType::Sint16, profile_type: None, scale: Some(Scale { num: 1000, den: 1 }), offset: None, units: Some("m/s") }) {
                Ok(f) => Ok(SegmentLap::AvgPosVerticalSpeed(f)),
                Err(x) => Err(x),
            },
            46 => match decode_field(buffer, endian, FieldProfile { base: BaseType::Sint16, profile_type: None, scale: Some(Scale { num: 1000, den: 1 }), offset: None, units: Some("m/s") }) {
                Ok(f) => Ok(SegmentLap::AvgNegVerticalSpeed(f)),
                Err(x) => Err(x),
            },
            47 => match decode_field(buffer, endian, FieldProfile { base: BaseType::Sint16, profile_type: None, scale: Some(Scale { num: 1000, den: 1 }), offset: None, units: Some("m/s") }) {
                Ok(f) => Ok(SegmentLap::MaxPosVerticalSpeed(f)),
                Err(x) => Err(x),
            },
            48 => match decode_field(buffer, endian, FieldProfile { base: BaseType::Sint16, profile_type: None, scale: Some(Scale { num: 1000, den: 1 }), offset: None, units: Some("m/s") }) {
                Ok(f) => Ok(SegmentLap::MaxNegVerticalSpeed(f)),
                Err(x) => Err(x),
            },
            49 => match decode_field(buffer, endian, FieldProfile { base: BaseType::Uint32, profile_type: None, scale: Some(Scale { num: 1000, den: 1 }), offset: None, units: Some("s") }) {
                Ok(f) => Ok(SegmentLap::TimeInHrZone(f)),
                Err(x) => Err(x),
            },
            50 => match decode_field(buffer, endian, FieldProfile { base: BaseType::Uint32, profile_type: None, scale: Some(Scale { num: 1000, den: 1 }), offset: None, units: Some("s") }) {
                Ok(f) => Ok(SegmentLap::TimeInSpeedZone(f)),
                Err(x) => Err(x),
            },
            51 => match decode_field(buffer, endian, FieldProfile { base: BaseType::Uint32, profile_type: None, scale: Some(Scale { num: 1000, den: 1 }), offset: None, units: Some("s") }) {
                Ok(f) => Ok(SegmentLap::TimeInCadenceZone(f)),
                Err(x) => Err(x),
            },
            52 => match decode_field(buffer, endian, FieldProfile { base: BaseType::Uint32, profile_type: None, scale: Some(Scale { num: 1000, den: 1 }), offset: None, units: Some("s") }) {
                Ok(f) => Ok(SegmentLap::TimeInPowerZone(f)),
                Err(x) => Err(x),
            },
            53 => match decode_field(buffer, endian, FieldProfile { base: BaseType::Uint16, profile_type: None, scale: None, offset: None, units: None }) {
                Ok(f) => Ok(SegmentLap::RepetitionNum(f)),
                Err(x) => Err(x),
            },
            54 => match decode_field(buffer, endian, FieldProfile { base: BaseType::Uint16, profile_type: None, scale: Some(Scale { num: 5, den: 1 }), offset: Some(500), units: Some("m") }) {
                Ok(f) => Ok(SegmentLap::MinAltitude(f)),
                Err(x) => Err(x),
            },
            55 => match decode_field(buffer, endian, FieldProfile { base: BaseType::Uint8, profile_type: None, scale: None, offset: None, units: Some("bpm") }) {
                Ok(f) => Ok(SegmentLap::MinHeartRate(f)),
                Err(x) => Err(x),
            },
            56 => match decode_field(buffer, endian, FieldProfile { base: BaseType::Uint32, profile_type: None, scale: Some(Scale { num: 1000, den: 1 }), offset: None, units: Some("s") }) {
                Ok(f) => Ok(SegmentLap::ActiveTime(f)),
                Err(x) => Err(x),
            },
            57 => match decode_field(buffer, endian, FieldProfile { base: BaseType::Uint16, profile_type: Some(ProfileType::MessageIndex), scale: None, offset: None, units: None }) {
                Ok(f) => Ok(SegmentLap::WktStepIndex(f)),
                Err(x) => Err(x),
            },
            58 => match decode_field(buffer, endian, FieldProfile { base: BaseType::Enum, profile_type: Some(ProfileType::SportEvent), scale: None, offset: None, units: None }) {
                Ok(f) => Ok(SegmentLap::SportEvent(f)),
                Err(x) => Err(x),
            },
            59 => match decode_field(buffer, endian, FieldProfile { base: BaseType::Uint8, profile_type: None, scale: Some(Scale { num: 2, den: 1 }), offset: None, units: Some("percent") }) {
                Ok(f) => Ok(SegmentLap::AvgLeftTorqueEffectiveness(f)),
                Err(x) => Err(x),
            },
            60 => match decode_field(buffer, endian, FieldProfile { base: BaseType::Uint8, profile_type: None, scale: Some(Scale { num: 2, den: 1 }), offset: None, units: Some("percent") }) {
                Ok(f) => Ok(SegmentLap::AvgRightTorqueEffectiveness(f)),
                Err(x) => Err(x),
            },
            61 => match decode_field(buffer, endian, FieldProfile { base: BaseType::Uint8, profile_type: None, scale: Some(Scale { num: 2, den: 1 }), offset: None, units: Some("percent") }) {
                Ok(f) => Ok(SegmentLap::AvgLeftPedalSmoothness(f)),
                Err(x) => Err(x),
            },
            62 => match decode_field(buffer, endian, FieldProfile { base: BaseType::Uint8, profile_type: None, scale: Some(Scale { num: 2, den: 1 }), offset: None, units: Some("percent") }) {
                Ok(f) => Ok(SegmentLap::AvgRightPedalSmoothness(f)),
                Err(x) => Err(x),
            },
            63 => match decode_field(buffer, endian, FieldProfile { base: BaseType::Uint8, profile_type: None, scale: Some(Scale { num: 2, den: 1 }), offset: None, units: Some("percent") }) {
                Ok(f) => Ok(SegmentLap::AvgCombinedPedalSmoothness(f)),
                Err(x) => Err(x),
            },
            64 => match decode_field(buffer, endian, FieldProfile { base: BaseType::Enum, profile_type: Some(ProfileType::SegmentLapStatus), scale: None, offset: None, units: None }) {
                Ok(f) => Ok(SegmentLap::Status(f)),
                Err(x) => Err(x),
            },
            65 => match decode_field(buffer, endian, FieldProfile { base: BaseType::Utf8String, profile_type: None, scale: None, offset: None, units: None }) {
                Ok(f) => Ok(SegmentLap::Uuid(f)),
                Err(x) => Err(x),
            },
            66 => match decode_field(buffer, endian, FieldProfile { base: BaseType::Uint8, profile_type: None, scale: Some(Scale { num: 128, den: 1 }), offset: None, units: Some("rpm") }) {
                Ok(f) => Ok(SegmentLap::AvgFractionalCadence(f)),
                Err(x) => Err(x),
            },
            67 => match decode_field(buffer, endian, FieldProfile { base: BaseType::Uint8, profile_type: None, scale: Some(Scale { num: 128, den: 1 }), offset: None, units: Some("rpm") }) {
                Ok(f) => Ok(SegmentLap::MaxFractionalCadence(f)),
                Err(x) => Err(x),
            },
            68 => match decode_field(buffer, endian, FieldProfile { base: BaseType::Uint8, profile_type: None, scale: Some(Scale { num: 128, den: 1 }), offset: None, units: Some("cycles") }) {
                Ok(f) => Ok(SegmentLap::TotalFractionalCycles(f)),
                Err(x) => Err(x),
            },
            69 => match decode_field(buffer, endian, FieldProfile { base: BaseType::Uint16, profile_type: None, scale: None, offset: None, units: None }) {
                Ok(f) => Ok(SegmentLap::FrontGearShiftCount(f)),
                Err(x) => Err(x),
            },
            70 => match decode_field(buffer, endian, FieldProfile { base: BaseType::Uint16, profile_type: None, scale: None, offset: None, units: None }) {
                Ok(f) => Ok(SegmentLap::RearGearShiftCount(f)),
                Err(x) => Err(x),
            },
            71 => match decode_field(buffer, endian, FieldProfile { base: BaseType::Uint32, profile_type: None, scale: Some(Scale { num: 1000, den: 1 }), offset: None, units: Some("s") }) {
                Ok(f) => Ok(SegmentLap::TimeStanding(f)),
                Err(x) => Err(x),
            },
            72 => match decode_field(buffer, endian, FieldProfile { base: BaseType::Uint16, profile_type: None, scale: None, offset: None, units: None }) {
                Ok(f) => Ok(SegmentLap::StandCount(f)),
                Err(x) => Err(x),
            },
            73 => match decode_field(buffer, endian, FieldProfile { base: BaseType::Sint8, profile_type: None, scale: None, offset: None, units: Some("mm") }) {
                Ok(f) => Ok(SegmentLap::AvgLeftPco(f)),
                Err(x) => Err(x),
            },
            74 => match decode_field(buffer, endian, FieldProfile { base: BaseType::Sint8, profile_type: None, scale: None, offset: None, units: Some("mm") }) {
                Ok(f) => Ok(SegmentLap::AvgRightPco(f)),
                Err(x) => Err(x),
            },
            75 => match decode_field(buffer, endian, FieldProfile { base: BaseType::Uint8, profile_type: None, scale: Some(Scale { num: 7111111, den: 10000000 }), offset: None, units: Some("degrees") }) {
                Ok(f) => Ok(SegmentLap::AvgLeftPowerPhase(f)),
                Err(x) => Err(x),
            },
            76 => match decode_field(buffer, endian, FieldProfile { base: BaseType::Uint8, profile_type: None, scale: Some(Scale { num: 7111111, den: 10000000 }), offset: None, units: Some("degrees") }) {
                Ok(f) => Ok(SegmentLap::AvgLeftPowerPhasePeak(f)),
                Err(x) => Err(x),
            },
            77 => match decode_field(buffer, endian, FieldProfile { base: BaseType::Uint8, profile_type: None, scale: Some(Scale { num: 7111111, den: 10000000 }), offset: None, units: Some("degrees") }) {
                Ok(f) => Ok(SegmentLap::AvgRightPowerPhase(f)),
                Err(x) => Err(x),
            },
            78 => match decode_field(buffer, endian, FieldProfile { base: BaseType::Uint8, profile_type: None, scale: Some(Scale { num: 7111111, den: 10000000 }), offset: None, units: Some("degrees") }) {
                Ok(f) => Ok(SegmentLap::AvgRightPowerPhasePeak(f)),
                Err(x) => Err(x),
            },
            79 => match decode_field(buffer, endian, FieldProfile { base: BaseType::Uint16, profile_type: None, scale: None, offset: None, units: Some("watts") }) {
                Ok(f) => Ok(SegmentLap::AvgPowerPosition(f)),
                Err(x) => Err(x),
            },
            80 => match decode_field(buffer, endian, FieldProfile { base: BaseType::Uint16, profile_type: None, scale: None, offset: None, units: Some("watts") }) {
                Ok(f) => Ok(SegmentLap::MaxPowerPosition(f)),
                Err(x) => Err(x),
            },
            81 => match decode_field(buffer, endian, FieldProfile { base: BaseType::Uint8, profile_type: None, scale: None, offset: None, units: Some("rpm") }) {
                Ok(f) => Ok(SegmentLap::AvgCadencePosition(f)),
                Err(x) => Err(x),
            },
            82 => match decode_field(buffer, endian, FieldProfile { base: BaseType::Uint8, profile_type: None, scale: None, offset: None, units: Some("rpm") }) {
                Ok(f) => Ok(SegmentLap::MaxCadencePosition(f)),
                Err(x) => Err(x),
            },
            83 => match decode_field(buffer, endian, FieldProfile { base: BaseType::Uint16, profile_type: Some(ProfileType::Manufacturer), scale: None, offset: None, units: None }) {
                Ok(f) => Ok(SegmentLap::Manufacturer(f)),
                Err(x) => Err(x),
            },
            _ => Ok(SegmentLap::Unknown { data: slice_to_vec(buffer), field_def_num }),
        }
    }
}

/// Summary of the unique segment and leaderboard information associated with a segment file. This message is used to compile a segment list file describing all segment files on a device. The segment list file is used when refreshing the contents of a segment file with the latest available leaderboard information.
#[derive(Debug, Clone)]
pub enum SegmentFile {
    MessageIndex(Field),
    /// UUID of the segment file
    FileUuid(Field),
    /// Enabled state of the segment file
    Enabled(Field),
    /// Primary key of the user that created the segment file
    UserProfilePrimaryKey(Field),
    /// Leader type of each leader in the segment file
    LeaderType(Field),
    /// Group primary key of each leader in the segment file
    LeaderGroupPrimaryKey(Field),
    /// Activity ID of each leader in the segment file
    LeaderActivityId(Field),
    /// String version of the activity ID of each leader in the segment file. 21 characters long for each ID, express in decimal
    LeaderActivityIdString(Field),
    /// Index for the Leader Board entry selected as the default race participant
    DefaultRaceLeader(Field),
    Unknown { data: Vec<u8>, field_def_num: u8 },
}

impl SegmentFile {
    /// The profile entry of each field of this message.
    pub open spec fn profile(field_def_num: u8) -> Option<FieldProfile> {
        match field_def_num {
            254 => Some(FieldProfile { base: BaseType::Uint16, profile_type: Some(ProfileType::MessageIndex), scale: None, offset: None, units: None }),
            1 => Some(FieldProfile { base: BaseType::Utf8String, profile_type: None, scale: None, offset: None, units: None }),
            3 => Some(FieldProfile { base: BaseType::Bool, profile_type: None, scale: None, offset: None, units: None }),
            4 => Some(FieldProfile { base: BaseType::Uint32, profile_type: None, scale: None, offset: None, units: None }),
            7 => Some(FieldProfile { base: BaseType::Enum, profile_type: Some(ProfileType::SegmentLeaderboardType), scale: None, offset: None, units: None }),
            8 => Some(FieldProfile { base: BaseType::Uint32, profile_type: None, scale: None, offset: None, units: None }),
            9 => Some(FieldProfile { base: BaseType::Uint32, profile_type: None, scale: None, offset: None, units: None }),
            10 => Some(FieldProfile { base: BaseType::Utf8String, profile_type: None, scale: None, offset: None, units: None }),
            11 => Some(FieldProfile { base: BaseType::Uint8, profile_type: None, scale: None, offset: None, units: None }),
            _ => None,
        }
    }

    /// The field this value holds.
    pub open spec fn entry(&self) -> FieldEntry {
        match self {
            SegmentFile::MessageIndex(f) => FieldEntry::Known { num: 254, field: f@ },
            SegmentFile::FileUuid(f) => FieldEntry::Known { num: 1, field: f@ },
            SegmentFile::Enabled(f) => FieldEntry::Known { num: 3, field: f@ },
            SegmentFile::UserProfilePrimaryKey(f) => FieldEntry::Known { num: 4, field: f@ },
            SegmentFile::LeaderType(f) => FieldEntry::Known { num: 7, field: f@ },
            SegmentFile::LeaderGroupPrimaryKey(f) => FieldEntry::Known { num: 8, field: f@ },
            SegmentFile::LeaderActivityId(f) => FieldEntry::Known { num: 9, field: f@ },
            SegmentFile::LeaderActivityIdString(f) => FieldEntry::Known { num: 10, field: f@ },
            SegmentFile::DefaultRaceLeader(f) => FieldEntry::Known { num: 11, field: f@ },
            SegmentFile::Unknown { data, field_def_num } => FieldEntry::Unknown { num: *field_def_num, data: data@ },
        }
    }

    /// Decodes the byte run `buffer` of field `field_def_num` of this message.
    pub fn decode(buffer: &[u8], field_def_num: u8, endian: Endian) -> (r: Result<Self, Error>)
        ensures
            match r {
                Ok(m) => decode_entry(Self::profile(field_def_num), field_def_num, buffer@, endian)
                    == Ok::<FieldEntry, Error>(m.entry()),
                Err(x) => decode_entry(Self::profile(field_def_num), field_def_num, buffer@, endian)
                    == Err::<FieldEntry, Error>(x),
            },
    {
        match field_def_num {
            254 => match decode_field(buffer, endian, FieldProfile { base: BaseType::Uint16, profile_type: Some(ProfileType::MessageIndex), scale: None, offset: None, units: None }) {
                Ok(f) => Ok(SegmentFile::MessageIndex(f)),
                Err(x) => Err(x),
            },
            1 => match decode_field(buffer, endian, FieldProfile { base: BaseType::Utf8String, profile_type: None, scale: None, offset: None, units: None }) {
                Ok(f) => Ok(SegmentFile::FileUuid(f)),
                Err(x) => Err(x),
            },
            3 => match decode_field(buffer, endian, FieldProfile { base: BaseType::Bool, profile_type: None, scale: None, offset: None, units: None }) {
                Ok(f) => Ok(SegmentFile::Enabled(f)),
                Err(x) => Err(x),
            },
            4 => match decode_field(buffer, endian, FieldProfile { base: BaseType::Uint32, profile_type: None, scale: None, offset: None, units: None }) {
                Ok(f) => Ok(SegmentFile::UserProfilePrimaryKey(f)),
                Err(x) => Err(x),
            },
            7 => match decode_field(buffer, endian, FieldProfile { base: BaseType::Enum, profile_type: Some(ProfileType::SegmentLeaderboardType), scale: None, offset: None, units: None }) {
                Ok(f) => Ok(SegmentFile::LeaderType(f)),
                Err(x) => Err(x),
            },
            8 => match decode_field(buffer, endian, FieldProfile { base: BaseType::Uint32, profile_type: None, scale: None, offset: None, units: None }) {
                Ok(f) => Ok(SegmentFile::LeaderGroupPrimaryKey(f)),
                Err(x) => Err(x),
            },
            9 => match decode_field(buffer, endian, FieldProfile { base: BaseType::Uint32, profile_type: None, scale: None, offset: None, units: None }) {
                Ok(f) => Ok(SegmentFile::LeaderActivityId(f)),
                Err(x) => Err(x),
            },
            10 => match decode_field(buffer, endian, FieldProfile { base: BaseType::Utf8String, profile_type: None, scale: None, offset: None, units: None }) {
                Ok(f) => Ok(SegmentFile::LeaderActivityIdString(f)),
                Err(x) => Err(x),
            },
            11 => match decode_field(buffer, endian, FieldProfile { base: BaseType::Uint8, profile_type: None, scale: None, offset: None, units: None }) {
                Ok(f) => Ok(SegmentFile::DefaultRaceLeader(f)),
                Err(x) => Err(x),
            },
            _ => Ok(SegmentFile::Unknown { data: slice_to_vec(buffer), field_def_num }),
        }
    }
}

#[derive(Debug, Clone)]
pub enum Workout {
    Sport(Field),
    Capabilities(Field),
    /// number of valid steps
    NumValidSteps(Field),
    WktName(Field),
    SubSport(Field),
    PoolLength(Field),
    PoolLengthUnit(Field),
    Unknown { data: Vec<u8>, field_def_num: u8 },
}

impl Workout {
    /// The profile entry of each field of this message.
    pub open spec fn profile(field_def_num: u8) -> Option<FieldProfile> {
        match field_def_num {
            4 => Some(FieldProfile { base: BaseType::Enum, profile_type: Some(ProfileType::Sport), scale: None, offset: None, units: None }),
            5 => Some(FieldProfile { base: BaseType::Uint32z, profile_type: Some(ProfileType::WorkoutCapabilities), scale: None, offset: None, units: None }),
            6 => Some(FieldProfile { base: BaseType::Uint16, profile_type: None, scale: None, offset: None, units: None }),
            8 => Some(FieldProfile { base: BaseType::Utf8String, profile_type: None, scale: None, offset: None, units: None }),
            11 => Some(FieldProfile { base: BaseType::Enum, profile_type: Some(ProfileType::SubSport), scale: None, offset: None, units: None }),
            14 => Some(FieldProfile { base: BaseType::Uint16, profile_type: None, scale: Some(Scale { num: 100, den: 1 }), offset: None, units: Some("m") }),
            15 => Some(FieldProfile { base: BaseType::Enum, profile_type: Some(ProfileType::DisplayMeasure), scale: None, offset: None, units: None }),
            _ => None,
        }
    }

    /// The field this value holds.
    pub open spec fn entry(&self) -> FieldEntry {
        match self {
            Workout::Sport(f) => FieldEntry::Known { num: 4, field: f@ },
            Workout::Capabilities(f) => FieldEntry::Known { num: 5, field: f@ },
            Workout::NumValidSteps(f) => FieldEntry::Known { num: 6, field: f@ },
            Workout::WktName(f) => FieldEntry::Known { num: 8, field: f@ },
            Workout::SubSport(f) => FieldEntry::Known { num: 11, field: f@ },
            Workout::PoolLength(f) => FieldEntry::Known { num: 14, field: f@ },
            Workout::PoolLengthUnit(f) => FieldEntry::Known { num: 15, field: f@ },
            Workout::Unknown { data, field_def_num } => FieldEntry::Unknown { num: *field_def_num, data: data@ },
        }
    }

    /// Decodes the byte run `buffer` of field `field_def_num` of this message.
    pub fn decode(buffer: &[u8], field_def_num: u8, endian: Endian) -> (r: Result<Self, Error>)
        ensures
            match r {
                Ok(m) => decode_entry(Self::profile(field_def_num), field_def_num, buffer@, endian)
                    == Ok::<FieldEntry, Error>(m.entry()),
                Err(x) => decode_entry(Self::profile(field_def_num), field_def_num, buffer@, endian)
                    == Err::<FieldEntry, Error>(x),
            },
    {
        match field_def_num {
            4 => match decode_field(buffer, endian, FieldProfile { base: BaseType::Enum, profile_type: Some(ProfileType::Sport), scale: None, offset: None, units: None }) {
                Ok(f) => Ok(Workout::Sport(f)),
                Err(x) => Err(x),
            },
            5 => match decode_field(buffer, endian, FieldProfile { base: BaseType::Uint32z, profile_type: Some(ProfileType::WorkoutCapabilities), scale: None, offset: None, units: None }) {
                Ok(f) => Ok(Workout::Capabilities(f)),
                Err(x) => Err(x),
            },
            6 => match decode_field(buffer, endian, FieldProfile { base: BaseType::Uint16, profile_type: None, scale: None, offset: None, units: None }) {
                Ok(f) => Ok(Workout::NumValidSteps(f)),
                Err(x) => Err(x),
            },
            8 => match decode_field(buffer, endian, FieldProfile { base: BaseType::Utf8String, profile_type: None, scale: None, offset: None, units: None }) {
                Ok(f) => Ok(Workout::WktName(f)),
                Err(x) => Err(x),
            },
            11 => match decode_field(buffer, endian, FieldProfile { base: BaseType::Enum, profile_type: Some(ProfileType::SubSport), scale: None, offset: None, units: None }) {
                Ok(f) => Ok(Workout::SubSport(f)),
                Err(x) => Err(x),
            },
            14 => match decode_field(buffer, endian, FieldProfile { base: BaseType::Uint16, profile_type: None, scale: Some(Scale { num: 100, den: 1 }), offset: None, units: Some("m") }) {
                Ok(f) => Ok(Workout::PoolLength(f)),
                Err(x) => Err(x),
            },
            15 => match decode_field(buffer, endian, FieldProfile { base: BaseType::Enum, profile_type: Some(ProfileType::DisplayMeasure), scale: None, offset: None, units: None }) {
                Ok(f) => Ok(Workout::PoolLengthUnit(f)),
                Err(x) => Err(x),
            },
            _ => Ok(Workout::Unknown { data: slice_to_vec(buffer), field_def_num }),
        }
    }
}

#[derive(Debug, Clone)]
pub enum WorkoutSession {
    MessageIndex(Field),
    Sport(Field),
    SubSport(Field),
    NumValidSteps(Field),
    FirstStepIndex(Field),
    PoolLength(Field),
    PoolLengthUnit(Field),
    Unknown { data: Vec<u8>, field_def_num: u8 },
}

impl WorkoutSession {
    /// The profile entry of each field of this message.
    pub open spec fn profile(field_def_num: u8) -> Option<FieldProfile> {
        match field_def_num {
            254 => Some(FieldProfile { base: BaseType::Uint16, profile_type: Some(ProfileType::MessageIndex), scale: None, offset: None, units: None }),
            0 => Some(FieldProfile { base: BaseType::Enum, profile_type: Some(ProfileType::Sport), scale: None, offset: None, units: None }),
            1 => Some(FieldProfile { base: BaseType::Enum, profile_type: Some(ProfileType::SubSport), scale: None, offset: None, units: None }),
            2 => Some(FieldProfile { base: BaseType::Uint16, profile_type: None, scale: None, offset: None, units: None }),
            3 => Some(FieldProfile { base: BaseType::Uint16, profile_type: None, scale: None, offset: None, units: None }),
            4 => Some(FieldProfile { base: BaseType::Uint16, profile_type: None, scale: Some(Scale { num: 100, den: 1 }), offset: None, units: Some("m") }),
            5 => Some(FieldProfile { base: BaseType::Enum, profile_type: Some(ProfileType::DisplayMeasure), scale: None, offset: None, units: None }),
            _ => None,
        }
    }

    /// The field this value holds.
    pub open spec fn entry(&self) -> FieldEntry {
        match self {
            WorkoutSession::MessageIndex(f) => FieldEntry::Known { num: 254, field: f@ },
            WorkoutSession::Sport(f) => FieldEntry::Known { num: 0, field: f@ },
            WorkoutSession::SubSport(f) => FieldEntry::Known { num: 1, field: f@ },
            WorkoutSession::NumValidSteps(f) => FieldEntry::Known { num: 2, field: f@ },
            WorkoutSession::FirstStepIndex(f) => FieldEntry::Known { num: 3, field: f@ },
            WorkoutSession::PoolLength(f) => FieldEntry::Known { num: 4, field: f@ },
            WorkoutSession::PoolLengthUnit(f) => FieldEntry::Known { num: 5, field: f@ },
            WorkoutSession::Unknown { data, field_def_num } => FieldEntry::Unknown { num: *field_def_num, data: data@ },
        }
    }

    /// Decodes the byte run `buffer` of field `field_def_num` of this message.
    pub fn decode(buffer: &[u8], field_def_num: u8, endian: Endian) -> (r: Result<Self, Error>)
        ensures
            match r {
                Ok(m) => decode_entry(Self::profile(field_def_num), field_def_num, buffer@, endian)
                    == Ok::<FieldEntry, Error>(m.entry()),
                Err(x) => decode_entry(Self::profile(field_def_num), field_def_num, buffer@, endian)
                    == Err::<FieldEntry, Error>(x),
            },
    {
        match field_def_num {
            254 => match decode_field(buffer, endian, FieldProfile { base: BaseType::Uint16, profile_type: Some(ProfileType::MessageIndex), scale: None, offset: None, units: None }) {
                Ok(f) => Ok(WorkoutSession::MessageIndex(f)),
                Err(x) => Err(x),
            },
            0 => match decode_field(buffer, endian, FieldProfile { base: BaseType::Enum, profile_type: Some(ProfileType::Sport), scale: None, offset: None, units: None }) {
                Ok(f) => Ok(WorkoutSession::Sport(f)),
                Err(x) => Err(x),
            },
            1 => match decode_field(buffer, endian, FieldProfile { base: BaseType::Enum, profile_type: Some(ProfileType::SubSport), scale: None, offset: None, units: None }) {
                Ok(f) => Ok(WorkoutSession::SubSport(f)),
                Err(x) => Err(x),
            },
            2 => match decode_field(buffer, endian, FieldProfile { base: BaseType::Uint16, profile_type: None, scale: None, offset: None, units: None }) {
                Ok(f) => Ok(WorkoutSession::NumValidSteps(f)),
                Err(x) => Err(x),
            },
            3 => match decode_field(buffer, endian, FieldProfile { base: BaseType::Uint16, profile_type: None, scale: None, offset: None, units: None }) {
                Ok(f) => Ok(WorkoutSession::FirstStepIndex(f)),
                Err(x) => Err(x),
            },
            4 => match decode_field(buffer, endian, FieldProfile { base: BaseType::Uint16, profile_type: None, scale: Some(Scale { num: 100, den: 1 }), offset: None, units: Some("m") }) {
                Ok(f) => Ok(WorkoutSession::PoolLength(f)),
                Err(x) => Err(x),
            },
            5 => match decode_field(buffer, endian, FieldProfile { base: BaseType::Enum, profile_type: Some(ProfileType::DisplayMeasure), scale: None, offset: None, units: None }) {
                Ok(f) => Ok(WorkoutSession::PoolLengthUnit(f)),
                Err(x) => Err(x),
            },
            _ => Ok(WorkoutSession::Unknown { data: slice_to_vec(buffer), field_def_num }),
        }
    }
}

#[derive(Debug, Clone)]
pub enum WorkoutStep {
    MessageIndex(Field),
    WktStepName(Field),
    DurationType(Field),
    DurationValue(Field),
    TargetType(Field),
    TargetValue(Field),
    CustomTargetValueLow(Field),
    CustomTargetValueHigh(Field),
    Intensity(Field),
    Notes(Field),
    Equipment(Field),
    ExerciseCategory(Field),
    ExerciseName(Field),
    ExerciseWeight(Field),
    WeightDisplayUnit(Field),
    Unknown { data: Vec<u8>, field_def_num: u8 },
}

impl WorkoutStep {
    /// The profile entry of each field of this message.
    pub open spec fn profile(field_def_num: u8) -> Option<FieldProfile> {
        match field_def_num {
            254 => Some(FieldProfile { base: BaseType::Uint16, profile_type: Some(ProfileType::MessageIndex), scale: None, offset: None, units: None }),
            0 => Some(FieldProfile { base: BaseType::Utf8String, profile_type: None, scale: None, offset: None, units: None }),
            1 => Some(FieldProfile { base: BaseType::Enum, profile_type: Some(ProfileType::WktStepDuration), scale: None, offset: None, units: None }),
            2 => Some(FieldProfile { base: BaseType::Uint32, profile_type: None, scale: None, offset: None, units: None }),
            3 => Some(FieldProfile { base: BaseType::Enum, profile_type: Some(ProfileType::WktStepTarget), scale: None, offset: None, units: None }),
            4 => Some(FieldProfile { base: BaseType::Uint32, profile_type: None, scale: None, offset: None, units: None }),
            5 => Some(FieldProfile { base: BaseType::Uint32, profile_type: None, scale: None, offset: None, units: None }),
            6 => Some(FieldProfile { base: BaseType::Uint32, profile_type: None, scale: None, offset: None, units: None }),
            7 => Some(FieldProfile { base: BaseType::Enum, profile_type: Some(ProfileType::Intensity), scale: None, offset: None, units: None }),
            8 => Some(FieldProfile { base: BaseType::Utf8String, profile_type: None, scale: None, offset: None, units: None }),
            9 => Some(FieldProfile { base: BaseType::Enum, profile_type: Some(ProfileType::WorkoutEquipment), scale: None, offset: None, units: None }),
            10 => Some(FieldProfile { base: BaseType::Uint16, profile_type: Some(ProfileType::ExerciseCategory), scale: None, offset: None, units: None }),
            11 => Some(FieldProfile { base: BaseType::Uint16, profile_type: None, scale: None, offset: None, units: None }),
            12 => Some(FieldProfile { base: BaseType::Uint16, profile_type: None, scale: Some(Scale { num: 100, den: 1 }), offset: None, units: Some("kg") }),
            13 => Some(FieldProfile { base: BaseType::Uint16, profile_type: Some(ProfileType::FitBaseUnit), scale: None, offset: None, units: None }),
            _ => None,
        }
    }

    /// The field this value holds.
    pub open spec fn entry(&self) -> FieldEntry {
        match self {
            WorkoutStep::MessageIndex(f) => FieldEntry::Known { num: 254, field: f@ },
            WorkoutStep::WktStepName(f) => FieldEntry::Known { num: 0, field: f@ },
            WorkoutStep::DurationType(f) => FieldEntry::Known { num: 1, field: f@ },
            WorkoutStep::DurationValue(f) => FieldEntry::Known { num: 2, field: f@ },
            WorkoutStep::TargetType(f) => FieldEntry::Known { num: 3, field: f@ },
            WorkoutStep::TargetValue(f) => FieldEntry::Known { num: 4, field: f@ },
            WorkoutStep::CustomTargetValueLow(f) => FieldEntry::Known { num: 5, field: f@ },
            WorkoutStep::CustomTargetValueHigh(f) => FieldEntry::Known { num: 6, field: f@ },
            WorkoutStep::Intensity(f) => FieldEntry::Known { num: 7, field: f@ },
            WorkoutStep::Notes(f) => FieldEntry::Known { num: 8, field: f@ },
            WorkoutStep::Equipment(f) => FieldEntry::Known { num: 9, field: f@ },
            WorkoutStep::ExerciseCategory(f) => FieldEntry::Known { num: 10, field: f@ },
            WorkoutStep::ExerciseName(f) => FieldEntry::Known { num: 11, field: f@ },
            WorkoutStep::ExerciseWeight(f) => FieldEntry::Known { num: 12, field: f@ },
            WorkoutStep::WeightDisplayUnit(f) => FieldEntry::Known { num: 13, field: f@ },
            WorkoutStep::Unknown { data, field_def_num } => FieldEntry::Unknown { num: *field_def_num, data: data@ },
        }
    }

    /// Decodes the byte run `buffer` of field `field_def_num` of this message.
    pub fn decode(buffer: &[u8], field_def_num: u8, endian: Endian) -> (r: Result<Self, Error>)
        ensures
            match r {
                Ok(m) => decode_entry(Self::profile(field_def_num), field_def_num, buffer@, endian)
                    == Ok::<FieldEntry, Error>(m.entry()),
                Err(x) => decode_entry(Self::profile(field_def_num), field_def_num, buffer@, endian)
                    == Err::<FieldEntry, Error>(x),
            },
    {
        match field_def_num {
            254 => match decode_field(buffer, endian, FieldProfile { base: BaseType::Uint16, profile_type: Some(ProfileType::MessageIndex), scale: None, offset: None, units: None }) {
                Ok(f) => Ok(WorkoutStep::MessageIndex(f)),
                Err(x) => Err(x),
            },
            0 => match decode_field(buffer, endian, FieldProfile { base: BaseType::Utf8String, profile_type: None, scale: None, offset: None, units: None }) {
                Ok(f) => Ok(WorkoutStep::WktStepName(f)),
                Err(x) => Err(x),
            },
            1 => match decode_field(buffer, endian, FieldProfile { base: BaseType::Enum, profile_type: Some(ProfileType::WktStepDuration), scale: None, offset: None, units: None }) {
                Ok(f) => Ok(WorkoutStep::DurationType(f)),
                Err(x) => Err(x),
            },
            2 => match decode_field(buffer, endian, FieldProfile { base: BaseType::Uint32, profile_type: None, scale: None, offset: None, units: None }) {
                Ok(f) => Ok(WorkoutStep::DurationValue(f)),
                Err(x) => Err(x),
            },
            3 => match decode_field(buffer, endian, FieldProfile { base: BaseType::Enum, profile_type: Some(ProfileType::WktStepTarget), scale: None, offset: None, units: None }) {
                Ok(f) => Ok(WorkoutStep::TargetType(f)),
                Err(x) => Err(x),
            },
            4 => match decode_field(buffer, endian, FieldProfile { base: BaseType::Uint32, profile_type: None, scale: None, offset: None, units: None }) {
                Ok(f) => Ok(WorkoutStep::TargetValue(f)),
                Err(x) => Err(x),
            },
            5 => match decode_field(buffer, endian, FieldProfile { base: BaseType::Uint32, profile_type: None, scale: None, offset: None, units: None }) {
                Ok(f) => Ok(WorkoutStep::CustomTargetValueLow(f)),
                Err(x) => Err(x),
            },
            6 => match decode_field(buffer, endian, FieldProfile { base: BaseType::Uint32, profile_type: None, scale: None, offset: None, units: None }) {
                Ok(f) => Ok(WorkoutStep::CustomTargetValueHigh(f)),
                Err(x) => Err(x),
            },
            7 => match decode_field(buffer, endian, FieldProfile { base: BaseType::Enum, profile_type: Some(ProfileType::Intensity), scale: None, offset: None, units: None }) {
                Ok(f) => Ok(WorkoutStep::Intensity(f)),
                Err(x) => Err(x),
            },
            8 => match decode_field(buffer, endian, FieldProfile { base: BaseType::Utf8String, profile_type: None, scale: None, offset: None, units: None }) {
                Ok(f) => Ok(WorkoutStep::Notes(f)),
                Err(x) => Err(x),
            },
            9 => match decode_field(buffer, endian, FieldProfile { base: BaseType::Enum, profile_type: Some(ProfileType::WorkoutEquipment), scale: None, offset: None, units: None }) {
                Ok(f) => Ok(WorkoutStep::Equipment(f)),
                Err(x) => Err(x),
            },
            10 => match decode_field(buffer, endian, FieldProfile { base: BaseType::Uint16, profile_type: Some(ProfileType::ExerciseCategory), scale: None, offset: None, units: None }) {
                Ok(f) => Ok(WorkoutStep::ExerciseCategory(f)),
                Err(x) => Err(x),
            },
            11 => match decode_field(buffer, endian, FieldProfile { base: BaseType::Uint16, profile_type: None, scale: None, offset: None, units: None }) {
                Ok(f) => Ok(WorkoutStep::ExerciseName(f)),
                Err(x) => Err(x),
            },
            12 => match decode_field(buffer, endian, FieldProfile { base: BaseType::Uint16, profile_type: None, scale: Some(Scale { num: 100, den: 1 }), offset: None, units: Some("kg") }) {
                Ok(f) => Ok(WorkoutStep::ExerciseWeight(f)),
                Err(x) => Err(x),
            },
            13 => match decode_field(buffer, endian, FieldProfile { base: BaseType::Uint16, profile_type: Some(ProfileType::FitBaseUnit), scale: None, offset: None, units: None }) {
                Ok(f) => Ok(WorkoutStep::WeightDisplayUnit(f)),
                Err(x) => Err(x),
            },
            _ => Ok(WorkoutStep::Unknown { data: slice_to_vec(buffer), field_def_num }),
        }
    }
}

#[derive(Debug, Clone)]
pub enum ExerciseTitle {
    MessageIndex(Field),
    ExerciseCategory(Field),
    ExerciseName(Field),
    WktStepName(Field),
    Unknown { data: Vec<u8>, field_def_num: u8 },
}

impl ExerciseTitle {
    /// The profile entry of each field of this message.
    pub open spec fn profile(field_def_num: u8) -> Option<FieldProfile> {
        match field_def_num {
            254 => Some(FieldProfile { base: BaseType::Uint16, profile_type: Some(ProfileType::MessageIndex), scale: None, offset: None, units: None }),
            0 => Some(FieldProfile { base: BaseType::Uint16, profile_type: Some(ProfileType::ExerciseCategory), scale: None, offset: None, units: None }),
            1 => Some(FieldProfile { base: BaseType::Uint16, profile_type: None, scale: None, offset: None, units: None }),
            2 => Some(FieldProfile { base: BaseType::Utf8String, profile_type: None, scale: None, offset: None, units: None }),
            _ => None,
        }
    }

    /// The field this value holds.
    pub open spec fn entry(&self) -> FieldEntry {
        match self {
            ExerciseTitle::MessageIndex(f) => FieldEntry::Known { num: 254, field: f@ },
            ExerciseTitle::ExerciseCategory(f) => FieldEntry::Known { num: 0, field: f@ },
            ExerciseTitle::ExerciseName(f) => FieldEntry::Known { num: 1, field: f@ },
            ExerciseTitle::WktStepName(f) => FieldEntry::Known { num: 2, field: f@ },
            ExerciseTitle::Unknown { data, field_def_num } => FieldEntry::Unknown { num: *field_def_num, data: data@ },
        }
    }

    /// Decodes the byte run `buffer` of field `field_def_num` of this message.
    pub fn decode(buffer: &[u8], field_def_num: u8, endian: Endian) -> (r: Result<Self, Error>)
        ensures
            match r {
                Ok(m) => decode_entry(Self::profile(field_def_num), field_def_num, buffer@, endian)
                    == Ok::<FieldEntry, Error>(m.entry()),
                Err(x) => decode_entry(Self::profile(field_def_num), field_def_num, buffer@, endian)
                    == Err::<FieldEntry, Error>(x),
            },
    {
        match field_def_num {
            254 => match decode_field(buffer, endian, FieldProfile { base: BaseType::Uint16, profile_type: Some(ProfileType::MessageIndex), scale: None, offset: None, units: None }) {
                Ok(f) => Ok(ExerciseTitle::MessageIndex(f)),
                Err(x) => Err(x),
            },
            0 => match decode_field(buffer, endian, FieldProfile { base: BaseType::Uint16, profile_type: Some(ProfileType::ExerciseCategory), scale: None, offset: None, units: None }) {
                Ok(f) => Ok(ExerciseTitle::ExerciseCategory(f)),
                Err(x) => Err(x),
            },
            1 => match decode_field(buffer, endian, FieldProfile { base: BaseType::Uint16, profile_type: None, scale: None, offset: None, units: None }) {
                Ok(f) => Ok(ExerciseTitle::ExerciseName(f)),
                Err(x) => Err(x),
            },
            2 => match decode_field(buffer, endian, FieldProfile { base: BaseType::Utf8String, profile_type: None, scale: None, offset: None, units: None }) {
                Ok(f) => Ok(ExerciseTitle::WktStepName(f)),
                Err(x) => Err(x),
            },
            _ => Ok(ExerciseTitle::Unknown { data: slice_to_vec(buffer), field_def_num }),
        }
    }
}

#[derive(Debug, Clone)]
pub enum Schedule {
    /// Corresponds to file_id of scheduled workout / course.
    Manufacturer(Field),
    /// Corresponds to file_id of scheduled workout / course.
    Product(Field),
    /// Corresponds to file_id of scheduled workout / course.
    SerialNumber(Field),
    /// Corresponds to file_id of scheduled workout / course.
    TimeCreated(Field),
    /// TRUE if this activity has been started
    Completed(Field),
    Type(Field),
    ScheduledTime(Field),
    Unknown { data: Vec<u8>, field_def_num: u8 },
}

impl Schedule {
    /// The profile entry of each field of this message.
    pub open spec fn profile(field_def_num: u8) -> Option<FieldProfile> {
        match field_def_num {
            0 => Some(FieldProfile { base: BaseType::Uint16, profile_type: Some(ProfileType::Manufacturer), scale: None, offset: None, units: None }),
            1 => Some(FieldProfile { base: BaseType::Uint16, profile_type: None, scale: None, offset: None, units: None }),
            2 => Some(FieldProfile { base: BaseType::Uint32z, profile_type: None, scale: None, offset: None, units: None }),
            3 => Some(FieldProfile { base: BaseType::Uint32, profile_type: Some(ProfileType::DateTime), scale: None, offset: None, units: None }),
            4 => Some(FieldProfile { base: BaseType::Bool, profile_type: None, scale: None, offset: None, units: None }),
            5 => Some(FieldProfile { base: BaseType::Enum, profile_type: Some(ProfileType::Schedule), scale: None, offset: None, units: None }),
            6 => Some(FieldProfile { base: BaseType::Uint32, profile_type: Some(ProfileType::LocalDateTime), scale: None, offset: None, units: None }),
            _ => None,
        }
    }

    /// The field this value holds.
    pub open spec fn entry(&self) -> FieldEntry {
        match self {
            Schedule::Manufacturer(f) => FieldEntry::Known { num: 0, field: f@ },
            Schedule::Product(f) => FieldEntry::Known { num: 1, field: f@ },
            Schedule::SerialNumber(f) => FieldEntry::Known { num: 2, field: f@ },
            Schedule::TimeCreated(f) => FieldEntry::Known { num: 3, field: f@ },
            Schedule::Completed(f) => FieldEntry::Known { num: 4, field: f@ },
            Schedule::Type(f) => FieldEntry::Known { num: 5, field: f@ },
            Schedule::ScheduledTime(f) => FieldEntry::Known { num: 6, field: f@ },
            Schedule::Unknown { data, field_def_num } => FieldEntry::Unknown { num: *field_def_num, data: data@ },
        }
    }

    /// Decodes the byte run `buffer` of field `field_def_num` of this message.
    pub fn decode(buffer: &[u8], field_def_num: u8, endian: Endian) -> (r: Result<Self, Error>)
        ensures
            match r {
                Ok(m) => decode_entry(Self::profile(field_def_num), field_def_num, buffer@, endian)
                    == Ok::<FieldEntry, Error>(m.entry()),
                Err(x) => decode_entry(Self::profile(field_def_num), field_def_num, buffer@, endian)
                    == Err::<FieldEntry, Error>(x),
            },
    {
        match field_def_num {
            0 => match decode_field(buffer, endian, FieldProfile { base: BaseType::Uint16, profile_type: Some(ProfileType::Manufacturer), scale: None, offset: None, units: None }) {
                Ok(f) => Ok(Schedule::Manufacturer(f)),
                Err(x) => Err(x),
            },
            1 => match decode_field(buffer, endian, FieldProfile { base: BaseType::Uint16, profile_type: None, scale: None, offset: None, units: None }) {
                Ok(f) => Ok(Schedule::Product(f)),
                Err(x) => Err(x),
            },
            2 => match decode_field(buffer, endian, FieldProfile { base: BaseType::Uint32z, profile_type: None, scale: None, offset: None, units: None }) {
                Ok(f) => Ok(Schedule::SerialNumber(f)),
                Err(x) => Err(x),
            },
            3 => match decode_field(buffer, endian, FieldProfile { base: BaseType::Uint32, profile_type: Some(ProfileType::DateTime), scale: None, offset: None, units: None }) {
                Ok(f) => Ok(Schedule::TimeCreated(f)),
                Err(x) => Err(x),
            },
            4 => match decode_field(buffer, endian, FieldProfile { base: BaseType::Bool, profile_type: None, scale: None, offset: None, units: None }) {
                Ok(f) => Ok(Schedule::Completed(f)),
                Err(x) => Err(x),
            },
            5 => match decode_field(buffer, endian, FieldProfile { base: BaseType::Enum, profile_type: Some(ProfileType::Schedule), scale: None, offset: None, units: None }) {
                Ok(f) => Ok(Schedule::Type(f)),
                Err(x) => Err(x),
            },
            6 => match decode_field(buffer, endian, FieldProfile { base: BaseType::Uint32, profile_type: Some(ProfileType::LocalDateTime), scale: None, offset: None, units: None }) {
                Ok(f) => Ok(Schedule::ScheduledTime(f)),
                Err(x) => Err(x),
            },
            _ => Ok(Schedule::Unknown { data: slice_to_vec(buffer), field_def_num }),
        }
    }
}

#[derive(Debug, Clone)]
pub enum Totals {
    MessageIndex(Field),
    Timestamp(Field),
    /// Excludes pauses
    TimerTime(Field),
    Distance(Field),
    Calories(Field),
    Sport(Field),
    /// Includes pauses
    ElapsedTime(Field),
    Sessions(Field),
    ActiveTime(Field),
    SportIndex(Field),
    Unknown { data: Vec<u8>, field_def_num: u8 },
}

impl Totals {
    /// The profile entry of each field of this message.
    pub open spec fn profile(field_def_num: u8) -> Option<FieldProfile> {
        match field_def_num {
            254 => Some(FieldProfile { base: BaseType::Uint16, profile_type: Some(ProfileType::MessageIndex), scale: None, offset: None, units: None }),
            253 => Some(FieldProfile { base: BaseType::Uint32, profile_type: Some(ProfileType::DateTime), scale: None, offset: None, units: Some("s") }),
            0 => Some(FieldProfile { base: BaseType::Uint32, profile_type: None, scale: None, offset: None, units: Some("s") }),
            1 => Some(FieldProfile { base: BaseType::Uint32, profile_type: None, scale: None, offset: None, units: Some("m") }),
            2 => Some(FieldProfile { base: BaseType::Uint32, profile_type: None, scale: None, offset: None, units: Some("kcal") }),
            3 => Some(FieldProfile { base: BaseType::Enum, profile_type: Some(ProfileType::Sport), scale: None, offset: None, units: None }),
            4 => Some(FieldProfile { base: BaseType::Uint32, profile_type: None, scale: None, offset: None, units: Some("s") }),
            5 => Some(FieldProfile { base: BaseType::Uint16, profile_type: None, scale: None, offset: None, units: None }),
            6 => Some(FieldProfile { base: BaseType::Uint32, profile_type: None, scale: None, offset: None, units: Some("s") }),
            9 => Some(FieldProfile { base: BaseType::Uint8, profile_type: None, scale: None, offset: None, units: None }),
            _ => None,
        }
    }

    /// The field this value holds.
    pub open spec fn entry(&self) -> FieldEntry {
        match self {
            Totals::MessageIndex(f) => FieldEntry::Known { num: 254, field: f@ },
            Totals::Timestamp(f) => FieldEntry::Known { num: 253, field: f@ },
            Totals::TimerTime(f) => FieldEntry::Known { num: 0, field: f@ },
            Totals::Distance(f) => FieldEntry::Known { num: 1, field: f@ },
            Totals::Calories(f) => FieldEntry::Known { num: 2, field: f@ },
            Totals::Sport(f) => FieldEntry::Known { num: 3, field: f@ },
            Totals::ElapsedTime(f) => FieldEntry::Known { num: 4, field: f@ },
            Totals::Sessions(f) => FieldEntry::Known { num: 5, field: f@ },
            Totals::ActiveTime(f) => FieldEntry::Known { num: 6, field: f@ },
            Totals::SportIndex(f) => FieldEntry::Known { num: 9, field: f@ },
            Totals::Unknown { data, field_def_num } => FieldEntry::Unknown { num: *field_def_num, data: data@ },
        }
    }

    /// Decodes the byte run `buffer` of field `field_def_num` of this message.
    pub fn decode(buffer: &[u8], field_def_num: u8, endian: Endian) -> (r: Result<Self, Error>)
        ensures
            match r {
                Ok(m) => decode_entry(Self::profile(field_def_num), field_def_num, buffer@, endian)
                    == Ok::<FieldEntry, Error>(m.entry()),
                Err(x) => decode_entry(Self::profile(field_def_num), field_def_num, buffer@, endian)
                    == Err::<FieldEntry, Error>(x),
            },
    {
        match field_def_num {
            254 => match decode_field(buffer, endian, FieldProfile { base: BaseType::Uint16, profile_type: Some(ProfileType::MessageIndex), scale: None, offset: None, units: None }) {
                Ok(f) => Ok(Totals::MessageIndex(f)),
                Err(x) => Err(x),
            },
            253 => match decode_field(buffer, endian, FieldProfile { base: BaseType::Uint32, profile_type: Some(ProfileType::DateTime), scale: None, offset: None, units: Some("s") }) {
                Ok(f) => Ok(Totals::Timestamp(f)),
                Err(x) => Err(x),
            },
            0 => match decode_field(buffer, endian, FieldProfile { base: BaseType::Uint32, profile_type: None, scale: None, offset: None, units: Some("s") }) {
                Ok(f) => Ok(Totals::TimerTime(f)),
                Err(x) => Err(x),
            },
            1 => match decode_field(buffer, endian, FieldProfile { base: BaseType::Uint32, profile_type: None, scale: None, offset: None, units: Some("m") }) {
                Ok(f) => Ok(Totals::Distance(f)),
                Err(x) => Err(x),
            },
            2 => match decode_field(buffer, endian, FieldProfile { base: BaseType::Uint32, profile_type: None, scale: None, offset: None, units: Some("kcal") }) {
                Ok(f) => Ok(Totals::Calories(f)),
                Err(x) => Err(x),
            },
            3 => match decode_field(buffer, endian, FieldProfile { base: BaseType::Enum, profile_type: Some(ProfileType::Sport), scale: None, offset: None, units: None }) {
                Ok(f) => Ok(Totals::Sport(f)),
                Err(x) => Err(x),
            },
            4 => match decode_field(buffer, endian, FieldProfile { base: BaseType::Uint32, profile_type: None, scale: None, offset: None, units: Some("s") }) {
                Ok(f) => Ok(Totals::ElapsedTime(f)),
                Err(x) => Err(x),
            },
            5 => match decode_field(buffer, endian, FieldProfile { base: BaseType::Uint16, profile_type: None, scale: None, offset: None, units: None }) {
                Ok(f) => Ok(Totals::Sessions(f)),
                Err(x) => Err(x),
            },
            6 => match decode_field(buffer, endian, FieldProfile { base: BaseType::Uint32, profile_type: None, scale: None, offset: None, units: Some("s") }) {
                Ok(f) => Ok(Totals::ActiveTime(f)),
                Err(x) => Err(x),
            },
            9 => match decode_field(buffer, endian, FieldProfile { base: BaseType::Uint8, profile_type: None, scale: None, offset: None, units: None }) {
                Ok(f) => Ok(Totals::SportIndex(f)),
                Err(x) => Err(x),
            },
            _ => Ok(Totals::Unknown { data: slice_to_vec(buffer), field_def_num }),
        }
    }
}

#[derive(Debug, Clone)]
pub enum WeightScale {
    Timestamp(Field),
    Weight(Field),
    PercentFat(Field),
    PercentHydration(Field),
    VisceralFatMass(Field),
    BoneMass(Field),
    MuscleMass(Field),
    BasalMet(Field),
    PhysiqueRating(Field),
    /// ~4kJ per kcal, 0.25 allows max 16384 kcal
    ActiveMet(Field),
    MetabolicAge(Field),
    VisceralFatRating(Field),
    /// Associates this weight scale message to a user.  This corresponds to the index of the user profile message in the weight scale file.
    UserProfileIndex(Field),
    Unknown { data: Vec<u8>, field_def_num: u8 },
}

impl WeightScale {
    /// The profile entry of each field of this message.
    pub open spec fn profile(field_def_num: u8) -> Option<FieldProfile> {
        match field_def_num {
            253 => Some(FieldProfile { base: BaseType::Uint32, profile_type: Some(ProfileType::DateTime), scale: None, offset: None, units: Some("s") }),
            0 => Some(FieldProfile { base: BaseType::Uint16, profile_type: Some(ProfileType::Weight), scale: Some(Scale { num: 100, den: 1 }), offset: None, units: Some("kg") }),
            1 => Some(FieldProfile { base: BaseType::Uint16, profile_type: None, scale: Some(Scale { num: 100, den: 1 }), offset: None, units: Some("%") }),
            2 => Some(FieldProfile { base: BaseType::Uint16, profile_type: None, scale: Some(Scale { num: 100, den: 1 }), offset: None, units: Some("%") }),
            3 => Some(FieldProfile { base: BaseType::Uint16, profile_type: None, scale: Some(Scale { num: 100, den: 1 }), offset: None, units: Some("kg") }),
            4 => Some(FieldProfile { base: BaseType::Uint16, profile_type: None, scale: Some(Scale { num: 100, den: 1 }), offset: None, units: Some("kg") }),
            5 => Some(FieldProfile { base: BaseType::Uint16, profile_type: None, scale: Some(Scale { num: 100, den: 1 }), offset: None, units: Some("kg") }),
            7 => Some(FieldProfile { base: BaseType::Uint16, profile_type: None, scale: Some(Scale { num: 4, den: 1 }), offset: None, units: Some("kcal/day") }),
            8 => Some(FieldProfile { base: BaseType::Uint8, profile_type: None, scale: None, offset: None, units: None }),
            9 => Some(FieldProfile { base: BaseType::Uint16, profile_type: None, scale: Some(Scale { num: 4, den: 1 }), offset: None, units: Some("kcal/day") }),
            10 => Some(FieldProfile { base: BaseType::Uint8, profile_type: None, scale: None, offset: None, units: Some("years") }),
            11 => Some(FieldProfile { base: BaseType::Uint8, profile_type: None, scale: None, offset: None, units: None }),
            12 => Some(FieldProfile { base: BaseType::Uint16, profile_type: Some(ProfileType::MessageIndex), scale: None, offset: None, units: None }),
            _ => None,
        }
    }

    /// The field this value holds.
    pub open spec fn entry(&self) -> FieldEntry {
        match self {
            WeightScale::Timestamp(f) => FieldEntry::Known { num: 253, field: f@ },
            WeightScale::Weight(f) => FieldEntry::Known { num: 0, field: f@ },
            WeightScale::PercentFat(f) => FieldEntry::Known { num: 1, field: f@ },
            WeightScale::PercentHydration(f) => FieldEntry::Known { num: 2, field: f@ },
            WeightScale::VisceralFatMass(f) => FieldEntry::Known { num: 3, field: f@ },
            WeightScale::BoneMass(f) => FieldEntry::Known { num: 4, field: f@ },
            WeightScale::MuscleMass(f) => FieldEntry::Known { num: 5, field: f@ },
            WeightScale::BasalMet(f) => FieldEntry::Known { num: 7, field: f@ },
            WeightScale::PhysiqueRating(f) => FieldEntry::Known { num: 8, field: f@ },
            WeightScale::ActiveMet(f) => FieldEntry::Known { num: 9, field: f@ },
            WeightScale::MetabolicAge(f) => FieldEntry::Known { num: 10, field: f@ },
            WeightScale::VisceralFatRating(f) => FieldEntry::Known { num: 11, field: f@ },
            WeightScale::UserProfileIndex(f) => FieldEntry::Known { num: 12, field: f@ },
            WeightScale::Unknown { data, field_def_num } => FieldEntry::Unknown { num: *field_def_num, data: data@ },
        }
    }

    /// Decodes the byte run `buffer` of field `field_def_num` of this message.
    pub fn decode(buffer: &[u8], field_def_num: u8, endian: Endian) -> (r: Result<Self, Error>)
        ensures
            match r {
                Ok(m) => decode_entry(Self::profile(field_def_num), field_def_num, buffer@, endian)
                    == Ok::<FieldEntry, Error>(m.entry()),
                Err(x) => decode_entry(Self::profile(field_def_num), field_def_num, buffer@, endian)
                    == Err::<FieldEntry, Error>(x),
            },
    {
        match field_def_num {
            253 => match decode_field(buffer, endian, FieldProfile { base: BaseType::Uint32, profile_type: Some(ProfileType::DateTime), scale: None, offset: None, units: Some("s") }) {
                Ok(f) => Ok(WeightScale::Timestamp(f)),
                Err(x) => Err(x),
            },
            0 => match decode_field(buffer, endian, FieldProfile { base: BaseType::Uint16, profile_type: Some(ProfileType::Weight), scale: Some(Scale { num: 100, den: 1 }), offset: None, units: Some("kg") }) {
                Ok(f) => Ok(WeightScale::Weight(f)),
                Err(x) => Err(x),
            },
            1 => match decode_field(buffer, endian, FieldProfile { base: BaseType::Uint16, profile_type: None, scale: Some(Scale { num: 100, den: 1 }), offset: None, units: Some("%") }) {
                Ok(f) => Ok(WeightScale::PercentFat(f)),
                Err(x) => Err(x),
            },
            2 => match decode_field(buffer, endian, FieldProfile { base: BaseType::Uint16, profile_type: None, scale: Some(Scale { num: 100, den: 1 }), offset: None, units: Some("%") }) {
                Ok(f) => Ok(WeightScale::PercentHydration(f)),
                Err(x) => Err(x),
            },
            3 => match decode_field(buffer, endian, FieldProfile { base: BaseType::Uint16, profile_type: None, scale: Some(Scale { num: 100, den: 1 }), offset: None, units: Some("kg") }) {
                Ok(f) => Ok(WeightScale::VisceralFatMass(f)),
                Err(x) => Err(x),
            },
            4 => match decode_field(buffer, endian, FieldProfile { base: BaseType::Uint16, profile_type: None, scale: Some(Scale { num: 100, den: 1 }), offset: None, units: Some("kg") }) {
                Ok(f) => Ok(WeightScale::BoneMass(f)),
                Err(x) => Err(x),
            },
            5 => match decode_field(buffer, endian, FieldProfile { base: BaseType::Uint16, profile_type: None, scale: Some(Scale { num: 100, den: 1 }), offset: None, units: Some("kg") }) {
                Ok(f) => Ok(WeightScale::MuscleMass(f)),
                Err(x) => Err(x),
            },
            7 => match decode_field(buffer, endian, FieldProfile { base: BaseType::Uint16, profile_type: None, scale: Some(Scale { num: 4, den: 1 }), offset: None, units: Some("kcal/day") }) {
                Ok(f) => Ok(WeightScale::BasalMet(f)),
                Err(x) => Err(x),
            },
            8 => match decode_field(buffer, endian, FieldProfile { base: BaseType::Uint8, profile_type: None, scale: None, offset: None, units: None }) {
                Ok(f) => Ok(WeightScale::PhysiqueRating(f)),
                Err(x) => Err(x),
            },
            9 => match decode_field(buffer, endian, FieldProfile { base: BaseType::Uint16, profile_type: None, scale: Some(Scale { num: 4, den: 1 }), offset: None, units: Some("kcal/day") }) {
                Ok(f) => Ok(WeightScale::ActiveMet(f)),
                Err(x) => Err(x),
            },
            10 => match decode_field(buffer, endian, FieldProfile { base: BaseType::Uint8, profile_type: None, scale: None, offset: None, units: Some("years") }) {
                Ok(f) => Ok(WeightScale::MetabolicAge(f)),
                Err(x) => Err(x),
            },
            11 => match decode_field(buffer, endian, FieldProfile { base: BaseType::Uint8, profile_type: None, scale: None, offset: None, units: None }) {
                Ok(f) => Ok(WeightScale::VisceralFatRating(f)),
                Err(x) => Err(x),
            },
            12 => match decode_field(buffer, endian, FieldProfile { base: BaseType::Uint16, profile_type: Some(ProfileType::MessageIndex), scale: None, offset: None, units: None }) {
                Ok(f) => Ok(WeightScale::UserProfileIndex(f)),
                Err(x) => Err(x),
            },
            _ => Ok(WeightScale::Unknown { data: slice_to_vec(buffer), field_def_num }),
        }
    }
}

#[derive(Debug, Clone)]
pub enum BloodPressure {
    Timestamp(Field),
    SystolicPressure(Field),
    DiastolicPressure(Field),
    MeanArterialPressure(Field),
    Map3SampleMean(Field),
    MapMorningValues(Field),
    MapEveningValues(Field),
    HeartRate(Field),
    HeartRateType(Field),
    Status(Field),
    /// Associates this blood pressure message to a user.  This corresponds to the index of the user profile message in the blood pressure file.
    UserProfileIndex(Field),
    Unknown { data: Vec<u8>, field_def_num: u8 },
}

impl BloodPressure {
    /// The profile entry of each field of this message.
    pub open spec fn profile(field_def_num: u8) -> Option<FieldProfile> {
        match field_def_num {
            253 => Some(FieldProfile { base: BaseType::Uint32, profile_type: Some(ProfileType::DateTime), scale: None, offset: None, units: Some("s") }),
            0 => Some(FieldProfile { base: BaseType::Uint16, profile_type: None, scale: None, offset: None, units: Some("mmHg") }),
            1 => Some(FieldProfile { base: BaseType::Uint16, profile_type: None, scale: None, offset: None, units: Some("mmHg") }),
            2 => Some(FieldProfile { base: BaseType::Uint16, profile_type: None, scale: None, offset: None, units: Some("mmHg") }),
            3 => Some(FieldProfile { base: BaseType::Uint16, profile_type: None, scale: None, offset: None, units: Some("mmHg") }),
            4 => Some(FieldProfile { base: BaseType::Uint16, profile_type: None, scale: None, offset: None, units: Some("mmHg") }),
            5 => Some(FieldProfile { base: BaseType::Uint16, profile_type: None, scale: None, offset: None, units: Some("mmHg") }),
            6 => Some(FieldProfile { base: BaseType::Uint8, profile_type: None, scale: None, offset: None, units: Some("bpm") }),
            7 => Some(FieldProfile { base: BaseType::Enum, profile_type: Some(ProfileType::HrType), scale: None, offset: None, units: None }),
            8 => Some(FieldProfile { base: BaseType::Enum, profile_type: Some(ProfileType::BpStatus), scale: None, offset: None, units: None }),
            9 => Some(FieldProfile { base: BaseType::Uint16, profile_type: Some(ProfileType::MessageIndex), scale: None, offset: None, units: None }),
            _ => None,
        }
    }

    /// The field this value holds.
    pub open spec fn entry(&self) -> FieldEntry {
        match self {
            BloodPressure::Timestamp(f) => FieldEntry::Known { num: 253, field: f@ },
            BloodPressure::SystolicPressure(f) => FieldEntry::Known { num: 0, field: f@ },
            BloodPressure::DiastolicPressure(f) => FieldEntry::Known { num: 1, field: f@ },
            BloodPressure::MeanArterialPressure(f) => FieldEntry::Known { num: 2, field: f@ },
            BloodPressure::Map3SampleMean(f) => FieldEntry::Known { num: 3, field: f@ },
            BloodPressure::MapMorningValues(f) => FieldEntry::Known { num: 4, field: f@ },
            BloodPressure::MapEveningValues(f) => FieldEntry::Known { num: 5, field: f@ },
            BloodPressure::HeartRate(f) => FieldEntry::Known { num: 6, field: f@ },
            BloodPressure::HeartRateType(f) => FieldEntry::Known { num: 7, field: f@ },
            BloodPressure::Status(f) => FieldEntry::Known { num: 8, field: f@ },
            BloodPressure::UserProfileIndex(f) => FieldEntry::Known { num: 9, field: f@ },
            BloodPressure::Unknown { data, field_def_num } => FieldEntry::Unknown { num: *field_def_num, data: data@ },
        }
    }

    /// Decodes the byte run `buffer` of field `field_def_num` of this message.
    pub fn decode(buffer: &[u8], field_def_num: u8, endian: Endian) -> (r: Result<Self, Error>)
        ensures
            match r {
                Ok(m) => decode_entry(Self::profile(field_def_num), field_def_num, buffer@, endian)
                    == Ok::<FieldEntry, Error>(m.entry()),
                Err(x) => decode_entry(Self::profile(field_def_num), field_def_num, buffer@, endian)
                    == Err::<FieldEntry, Error>(x),
            },
    {
        match field_def_num {
            253 => match decode_field(buffer, endian, FieldProfile { base: BaseType::Uint32, profile_type: Some(ProfileType::DateTime), scale: None, offset: None, units: Some("s") }) {
                Ok(f) => Ok(BloodPressure::Timestamp(f)),
                Err(x) => Err(x),
            },
            0 => match decode_field(buffer, endian, FieldProfile { base: BaseType::Uint16, profile_type: None, scale: None, offset: None, units: Some("mmHg") }) {
                Ok(f) => Ok(BloodPressure::SystolicPressure(f)),
                Err(x) => Err(x),
            },
            1 => match decode_field(buffer, endian, FieldProfile { base: BaseType::Uint16, profile_type: None, scale: None, offset: None, units: Some("mmHg") }) {
                Ok(f) => Ok(BloodPressure::DiastolicPressure(f)),
                Err(x) => Err(x),
            },
            2 => match decode_field(buffer, endian, FieldProfile { base: BaseType::Uint16, profile_type: None, scale: None, offset: None, units: Some("mmHg") }) {
                Ok(f) => Ok(BloodPressure::MeanArterialPressure(f)),
                Err(x) => Err(x),
            },
            3 => match decode_field(buffer, endian, FieldProfile { base: BaseType::Uint16, profile_type: None, scale: None, offset: None, units: Some("mmHg") }) {
                Ok(f) => Ok(BloodPressure::Map3SampleMean(f)),
                Err(x) => Err(x),
            },
            4 => match decode_field(buffer, endian, FieldProfile { base: BaseType::Uint16, profile_type: None, scale: None, offset: None, units: Some("mmHg") }) {
                Ok(f) => Ok(BloodPressure::MapMorningValues(f)),
                Err(x) => Err(x),
            },
            5 => match decode_field(buffer, endian, FieldProfile { base: BaseType::Uint16, profile_type: None, scale: None, offset: None, units: Some("mmHg") }) {
                Ok(f) => Ok(BloodPressure::MapEveningValues(f)),
                Err(x) => Err(x),
            },
            6 => match decode_field(buffer, endian, FieldProfile { base: BaseType::Uint8, profile_type: None, scale: None, offset: None, units: Some("bpm") }) {
                Ok(f) => Ok(BloodPressure::HeartRate(f)),
                Err(x) => Err(x),
            },
            7 => match decode_field(buffer, endian, FieldProfile { base: BaseType::Enum, profile_type: Some(ProfileType::HrType), scale: None, offset: None, units: None }) {
                Ok(f) => Ok(BloodPressure::HeartRateType(f)),
                Err(x) => Err(x),
            },
            8 => match decode_field(buffer, endian, FieldProfile { base: BaseType::Enum, profile_type: Some(ProfileType::BpStatus), scale: None, offset: None, units: None }) {
                Ok(f) => Ok(BloodPressure::Status(f)),
                Err(x) => Err(x),
            },
            9 => match decode_field(buffer, endian, FieldProfile { base: BaseType::Uint16, profile_type: Some(ProfileType::MessageIndex), scale: None, offset: None, units: None }) {
                Ok(f) => Ok(BloodPressure::UserProfileIndex(f)),
                Err(x) => Err(x),
            },
            _ => Ok(BloodPressure::Unknown { data: slice_to_vec(buffer), field_def_num }),
        }
    }
}

#[derive(Debug, Clone)]
pub enum MonitoringInfo {
    Timestamp(Field),
    /// Use to convert activity timestamps to local time if device does not support time zone and daylight savings time correction.
    LocalTimestamp(Field),
    ActivityType(Field),
    /// Indexed by activity_type
    CyclesToDistance(Field),
    /// Indexed by activity_type
    CyclesToCalories(Field),
    RestingMetabolicRate(Field),
    Unknown { data: Vec<u8>, field_def_num: u8 },
}

impl MonitoringInfo {
    /// The profile entry of each field of this message.
    pub open spec fn profile(field_def_num: u8) -> Option<FieldProfile> {
        match field_def_num {
            253 => Some(FieldProfile { base: BaseType::Uint32, profile_type: Some(ProfileType::DateTime), scale: None, offset: None, units: Some("s") }),
            0 => Some(FieldProfile { base: BaseType::Uint32, profile_type: Some(ProfileType::LocalDateTime), scale: None, offset: None, units: Some("s") }),
            1 => Some(FieldProfile { base: BaseType::Enum, profile_type: Some(ProfileType::ActivityType), scale: None, offset: None, units: None }),
            3 => Some(FieldProfile { base: BaseType::Uint16, profile_type: None, scale: Some(Scale { num: 5000, den: 1 }), offset: None, units: Some("m/cycle") }),
            4 => Some(FieldProfile { base: BaseType::Uint16, profile_type: None, scale: Some(Scale { num: 5000, den: 1 }), offset: None, units: Some("kcal/cycle") }),
            5 => Some(FieldProfile { base: BaseType::Uint16, profile_type: None, scale: None, offset: None, units: Some("kcal / day") }),
            _ => None,
        }
    }

    /// The field this value holds.
    pub open spec fn entry(&self) -> FieldEntry {
        match self {
            MonitoringInfo::Timestamp(f) => FieldEntry::Known { num: 253, field: f@ },
            MonitoringInfo::LocalTimestamp(f) => FieldEntry::Known { num: 0, field: f@ },
            MonitoringInfo::ActivityType(f) => FieldEntry::Known { num: 1, field: f@ },
            MonitoringInfo::CyclesToDistance(f) => FieldEntry::Known { num: 3, field: f@ },
            MonitoringInfo::CyclesToCalories(f) => FieldEntry::Known { num: 4, field: f@ },
            MonitoringInfo::RestingMetabolicRate(f) => FieldEntry::Known { num: 5, field: f@ },
            MonitoringInfo::Unknown { data, field_def_num } => FieldEntry::Unknown { num: *field_def_num, data: data@ },
        }
    }

    /// Decodes the byte run `buffer` of field `field_def_num` of this message.
    pub fn decode(buffer: &[u8], field_def_num: u8, endian: Endian) -> (r: Result<Self, Error>)
        ensures
            match r {
                Ok(m) => decode_entry(Self::profile(field_def_num), field_def_num, buffer@, endian)
                    == Ok::<FieldEntry, Error>(m.entry()),
                Err(x) => decode_entry(Self::profile(field_def_num), field_def_num, buffer@, endian)
                    == Err::<FieldEntry, Error>(x),
            },
    {
        match field_def_num {
            253 => match decode_field(buffer, endian, FieldProfile { base: BaseType::Uint32, profile_type: Some(ProfileType::DateTime), scale: None, offset: None, units: Some("s") }) {
                Ok(f) => Ok(MonitoringInfo::Timestamp(f)),
                Err(x) => Err(x),
            },
            0 => match decode_field(buffer, endian, FieldProfile { base: BaseType::Uint32, profile_type: Some(ProfileType::LocalDateTime), scale: None, offset: None, units: Some("s") }) {
                Ok(f) => Ok(MonitoringInfo::LocalTimestamp(f)),
                Err(x) => Err(x),
            },
            1 => match decode_field(buffer, endian, FieldProfile { base: BaseType::Enum, profile_type: Some(ProfileType::ActivityType), scale: None, offset: None, units: None }) {
                Ok(f) => Ok(MonitoringInfo::ActivityType(f)),
                Err(x) => Err(x),
            },
            3 => match decode_field(buffer, endian, FieldProfile { base: BaseType::Uint16, profile_type: None, scale: Some(Scale { num: 5000, den: 1 }), offset: None, units: Some("m/cycle") }) {
                Ok(f) => Ok(MonitoringInfo::CyclesToDistance(f)),
                Err(x) => Err(x),
            },
            4 => match decode_field(buffer, endian, FieldProfile { base: BaseType::Uint16, profile_type: None, scale: Some(Scale { num: 5000, den: 1 }), offset: None, units: Some("kcal/cycle") }) {
                Ok(f) => Ok(MonitoringInfo::CyclesToCalories(f)),
                Err(x) => Err(x),
            },
            5 => match decode_field(buffer, endian, FieldProfile { base: BaseType::Uint16, profile_type: None, scale: None, offset: None, units: Some("kcal / day") }) {
                Ok(f) => Ok(MonitoringInfo::RestingMetabolicRate(f)),
                Err(x) => Err(x),
            },
            _ => Ok(MonitoringInfo::Unknown { data: slice_to_vec(buffer), field_def_num }),
        }
    }
}

#[derive(Debug, Clone)]
pub enum Monitoring {
    /// Must align to logging interval, for example, time must be 00:00:00 for daily log.
    Timestamp(Field),
    /// Associates this data to device_info message.  Not required for file with single device (sensor).
    DeviceIndex(Field),
    /// Accumulated total calories.  Maintained by MonitoringReader for each activity_type.  See SDK documentation
    Calories(Field),
    /// Accumulated distance.  Maintained by MonitoringReader for each activity_type.  See SDK documentation.
    Distance(Field),
    /// Accumulated cycles.  Maintained by MonitoringReader for each activity_type.  See SDK documentation.
    Cycles(Field),
    ActiveTime(Field),
    ActivityType(Field),
    ActivitySubtype(Field),
    ActivityLevel(Field),
    Distance16(Field),
    Cycles16(Field),
    ActiveTime16(Field),
    /// Must align to logging interval, for example, time must be 00:00:00 for daily log.
    LocalTimestamp(Field),
    /// Avg temperature during the logging interval ended at timestamp
    Temperature(Field),
    /// Min temperature during the logging interval ended at timestamp
    TemperatureMin(Field),
    /// Max temperature during the logging interval ended at timestamp
    TemperatureMax(Field),
    /// Indexed using minute_activity_level enum
    ActivityTime(Field),
    ActiveCalories(Field),
    /// Indicates single type / intensity for duration since last monitoring message.
    CurrentActivityTypeIntensity(Field),
    TimestampMin8(Field),
    Timestamp16(Field),
    HeartRate(Field),
    Intensity(Field),
    DurationMin(Field),
    Duration(Field),
    Ascent(Field),
    Descent(Field),
    ModerateActivityMinutes(Field),
    VigorousActivityMinutes(Field),
    Unknown { data: Vec<u8>, field_def_num: u8 },
}

impl Monitoring {
    /// The profile entry of each field of this message.
    pub open spec fn profile(field_def_num: u8) -> Option<FieldProfile> {
        match field_def_num {
            253 => Some(FieldProfile { base: BaseType::Uint32, profile_type: Some(ProfileType::DateTime), scale: None, offset: None, units: Some("s") }),
            0 => Some(FieldProfile { base: BaseType::Uint8, profile_type: Some(ProfileType::DeviceIndex), scale: None, offset: None, units: None }),
            1 => Some(FieldProfile { base: BaseType::Uint16, profile_type: None, scale: None, offset: None, units: Some("kcal") }),
            2 => Some(FieldProfile { base: BaseType::Uint32, profile_type: None, scale: Some(Scale { num: 100, den: 1 }), offset: None, units: Some("m") }),
            3 => Some(FieldProfile { base: BaseType::Uint32, profile_type: None, scale: Some(Scale { num: 2, den: 1 }), offset: None, units: Some("cycles") }),
            4 => Some(FieldProfile { base: BaseType::Uint32, profile_type: None, scale: Some(Scale { num: 1000, den: 1 }), offset: None, units: Some("s") }),
            5 => Some(FieldProfile { base: BaseType::Enum, profile_type: Some(ProfileType::ActivityType), scale: None, offset: None, units: None }),
            6 => Some(FieldProfile { base: BaseType::Enum, profile_type: Some(ProfileType::ActivitySubtype), scale: None, offset: None, units: None }),
            7 => Some(FieldProfile { base: BaseType::Enum, profile_type: Some(ProfileType::ActivityLevel), scale: None, offset: None, units: None }),
            8 => Some(FieldProfile { base: BaseType::Uint16, profile_type: None, scale: None, offset: None, units: Some("100 * m") }),
            9 => Some(FieldProfile { base: BaseType::Uint16, profile_type: None, scale: None, offset: None, units: Some("2 * cycles (steps)") }),
            10 => Some(FieldProfile { base: BaseType::Uint16, profile_type: None, scale: None, offset: None, units: Some("s") }),
            11 => Some(FieldProfile { base: BaseType::Uint32, profile_type: Some(ProfileType::LocalDateTime), scale: None, offset: None, units: None }),
            12 => Some(FieldProfile { base: BaseType::Sint16, profile_type: None, scale: Some(Scale { num: 100, den: 1 }), offset: None, units: Some("C") }),
            14 => Some(FieldProfile { base: BaseType::Sint16, profile_type: None, scale: Some(Scale { num: 100, den: 1 }), offset: None, units: Some("C") }),
            15 => Some(FieldProfile { base: BaseType::Sint16, profile_type: None, scale: Some(Scale { num: 100, den: 1 }), offset: None, units: Some("C") }),
            16 => Some(FieldProfile { base: BaseType::Uint16, profile_type: None, scale: None, offset: None, units: Some("minutes") }),
            19 => Some(FieldProfile { base: BaseType::Uint16, profile_type: None, scale: None, offset: None, units: Some("kcal") }),
            24 => Some(FieldProfile { base: BaseType::Bytes, profile_type: None, scale: None, offset: None, units: None }),
            25 => Some(FieldProfile { base: BaseType::Uint8, profile_type: None, scale: None, offset: None, units: Some("min") }),
            26 => Some(FieldProfile { base: BaseType::Uint16, profile_type: None, scale: None, offset: None, units: Some("s") }),
            27 => Some(FieldProfile { base: BaseType::Uint8, profile_type: None, scale: None, offset: None, units: Some("bpm") }),
            28 => Some(FieldProfile { base: BaseType::Uint8, profile_type: None, scale: Some(Scale { num: 10, den: 1 }), offset: None, units: None }),
            29 => Some(FieldProfile { base: BaseType::Uint16, profile_type: None, scale: None, offset: None, units: Some("min") }),
            30 => Some(FieldProfile { base: BaseType::Uint32, profile_type: None, scale: None, offset: None, units: Some("s") }),
            31 => Some(FieldProfile { base: BaseType::Uint32, profile_type: None, scale: Some(Scale { num: 1000, den: 1 }), offset: None, units: Some("m") }),
            32 => Some(FieldProfile { base: BaseType::Uint32, profile_type: None, scale: Some(Scale { num: 1000, den: 1 }), offset: None, units: Some("m") }),
            33 => Some(FieldProfile { base: BaseType::Uint16, profile_type: None, scale: None, offset: None, units: Some("minutes") }),
            34 => Some(FieldProfile { base: BaseType::Uint16, profile_type: None, scale: None, offset: None, units: Some("minutes") }),
            _ => None,
        }
    }

    /// The field this value holds.
    pub open spec fn entry(&self) -> FieldEntry {
        match self {
            Monitoring::Timestamp(f) => FieldEntry::Known { num: 253, field: f@ },
            Monitoring::DeviceIndex(f) => FieldEntry::Known { num: 0, field: f@ },
            Monitoring::Calories(f) => FieldEntry::Known { num: 1, field: f@ },
            Monitoring::Distance(f) => FieldEntry::Known { num: 2, field: f@ },
            Monitoring::Cycles(f) => FieldEntry::Known { num: 3, field: f@ },
            Monitoring::ActiveTime(f) => FieldEntry::Known { num: 4, field: f@ },
            Monitoring::ActivityType(f) => FieldEntry::Known { num: 5, field: f@ },
            Monitoring::ActivitySubtype(f) => FieldEntry::Known { num: 6, field: f@ },
            Monitoring::ActivityLevel(f) => FieldEntry::Known { num: 7, field: f@ },
            Monitoring::Distance16(f) => FieldEntry::Known { num: 8, field: f@ },
            Monitoring::Cycles16(f) => FieldEntry::Known { num: 9, field: f@ },
            Monitoring::ActiveTime16(f) => FieldEntry::Known { num: 10, field: f@ },
            Monitoring::LocalTimestamp(f) => FieldEntry::Known { num: 11, field: f@ },
            Monitoring::Temperature(f) => FieldEntry::Known { num: 12, field: f@ },
            Monitoring::TemperatureMin(f) => FieldEntry::Known { num: 14, field: f@ },
            Monitoring::TemperatureMax(f) => FieldEntry::Known { num: 15, field: f@ },
            Monitoring::ActivityTime(f) => FieldEntry::Known { num: 16, field: f@ },
            Monitoring::ActiveCalories(f) => FieldEntry::Known { num: 19, field: f@ },
            Monitoring::CurrentActivityTypeIntensity(f) => FieldEntry::Known { num: 24, field: f@ },
            Monitoring::TimestampMin8(f) => FieldEntry::Known { num: 25, field: f@ },
            Monitoring::Timestamp16(f) => FieldEntry::Known { num: 26, field: f@ },
            Monitoring::HeartRate(f) => FieldEntry::Known { num: 27, field: f@ },
            Monitoring::Intensity(f) => FieldEntry::Known { num: 28, field: f@ },
            Monitoring::DurationMin(f) => FieldEntry::Known { num: 29, field: f@ },
            Monitoring::Duration(f) => FieldEntry::Known { num: 30, field: f@ },
            Monitoring::Ascent(f) => FieldEntry::Known { num: 31, field: f@ },
            Monitoring::Descent(f) => FieldEntry::Known { num: 32, field: f@ },
            Monitoring::ModerateActivityMinutes(f) => FieldEntry::Known { num: 33, field: f@ },
            Monitoring::VigorousActivityMinutes(f) => FieldEntry::Known { num: 34, field: f@ },
            Monitoring::Unknown { data, field_def_num } => FieldEntry::Unknown { num: *field_def_num, data: data@ },
        }
    }

    /// Decodes the byte run `buffer` of field `field_def_num` of this message.
    pub fn decode(buffer: &[u8], field_def_num: u8, endian: Endian) -> (r: Result<Self, Error>)
        ensures
            match r {
                Ok(m) => decode_entry(Self::profile(field_def_num), field_def_num, buffer@, endian)
                    == Ok::<FieldEntry, Error>(m.entry()),
                Err(x) => decode_entry(Self::profile(field_def_num), field_def_num, buffer@, endian)
                    == Err::<FieldEntry, Error>(x),
            },
    {
        match field_def_num {
            253 => match decode_field(buffer, endian, FieldProfile { base: BaseType::Uint32, profile_type: Some(ProfileType::DateTime), scale: None, offset: None, units: Some("s") }) {
                Ok(f) => Ok(Monitoring::Timestamp(f)),
                Err(x) => Err(x),
            },
            0 => match decode_field(buffer, endian, FieldProfile { base: BaseType::Uint8, profile_type: Some(ProfileType::DeviceIndex), scale: None, offset: None, units: None }) {
                Ok(f) => Ok(Monitoring::DeviceIndex(f)),
                Err(x) => Err(x),
            },
            1 => match decode_field(buffer, endian, FieldProfile { base: BaseType::Uint16, profile_type: None, scale: None, offset: None, units: Some("kcal") }) {
                Ok(f) => Ok(Monitoring::Calories(f)),
                Err(x) => Err(x),
            },
            2 => match decode_field(buffer, endian, FieldProfile { base: BaseType::Uint32, profile_type: None, scale: Some(Scale { num: 100, den: 1 }), offset: None, units: Some("m") }) {
                Ok(f) => Ok(Monitoring::Distance(f)),
                Err(x) => Err(x),
            },
            3 => match decode_field(buffer, endian, FieldProfile { base: BaseType::Uint32, profile_type: None, scale: Some(Scale { num: 2, den: 1 }), offset: None, units: Some("cycles") }) {
                Ok(f) => Ok(Monitoring::Cycles(f)),
                Err(x) => Err(x),
            },
            4 => match decode_field(buffer, endian, FieldProfile { base: BaseType::Uint32, profile_type: None, scale: Some(Scale { num: 1000, den: 1 }), offset: None, units: Some("s") }) {
                Ok(f) => Ok(Monitoring::ActiveTime(f)),
                Err(x) => Err(x),
            },
            5 => match decode_field(buffer, endian, FieldProfile { base: BaseType::Enum, profile_type: Some(ProfileType::ActivityType), scale: None, offset: None, units: None }) {
                Ok(f) => Ok(Monitoring::ActivityType(f)),
                Err(x) => Err(x),
            },
            6 => match decode_field(buffer, endian, FieldProfile { base: BaseType::Enum, profile_type: Some(ProfileType::ActivitySubtype), scale: None, offset: None, units: None }) {
                Ok(f) => Ok(Monitoring::ActivitySubtype(f)),
                Err(x) => Err(x),
            },
            7 => match decode_field(buffer, endian, FieldProfile { base: BaseType::Enum, profile_type: Some(ProfileType::ActivityLevel), scale: None, offset: None, units: None }) {
                Ok(f) => Ok(Monitoring::ActivityLevel(f)),
                Err(x) => Err(x),
            },
            8 => match decode_field(buffer, endian, FieldProfile { base: BaseType::Uint16, profile_type: None, scale: None, offset: None, units: Some("100 * m") }) {
                Ok(f) => Ok(Monitoring::Distance16(f)),
                Err(x) => Err(x),
            },
            9 => match decode_field(buffer, endian, FieldProfile { base: BaseType::Uint16, profile_type: None, scale: None, offset: None, units: Some("2 * cycles (steps)") }) {
                Ok(f) => Ok(Monitoring::Cycles16(f)),
                Err(x) => Err(x),
            },
            10 => match decode_field(buffer, endian, FieldProfile { base: BaseType::Uint16, profile_type: None, scale: None, offset: None, units: Some("s") }) {
                Ok(f) => Ok(Monitoring::ActiveTime16(f)),
                Err(x) => Err(x),
            },
            11 => match decode_field(buffer, endian, FieldProfile { base: BaseType::Uint32, profile_type: Some(ProfileType::LocalDateTime), scale: None, offset: None, units: None }) {
                Ok(f) => Ok(Monitoring::LocalTimestamp(f)),
                Err(x) => Err(x),
            },
            12 => match decode_field(buffer, endian, FieldProfile { base: BaseType::Sint16, profile_type: None, scale: Some(Scale { num: 100, den: 1 }), offset: None, units: Some("C") }) {
                Ok(f) => Ok(Monitoring::Temperature(f)),
                Err(x) => Err(x),
            },
            14 => match decode_field(buffer, endian, FieldProfile { base: BaseType::Sint16, profile_type: None, scale: Some(Scale { num: 100, den: 1 }), offset: None, units: Some("C") }) {
                Ok(f) => Ok(Monitoring::TemperatureMin(f)),
                Err(x) => Err(x),
            },
            15 => match decode_field(buffer, endian, FieldProfile { base: BaseType::Sint16, profile_type: None, scale: Some(Scale { num: 100, den: 1 }), offset: None, units: Some("C") }) {
                Ok(f) => Ok(Monitoring::TemperatureMax(f)),
                Err(x) => Err(x),
            },
            16 => match decode_field(buffer, endian, FieldProfile { base: BaseType::Uint16, profile_type: None, scale: None, offset: None, units: Some("minutes") }) {
                Ok(f) => Ok(Monitoring::ActivityTime(f)),
                Err(x) => Err(x),
            },
            19 => match decode_field(buffer, endian, FieldProfile { base: BaseType::Uint16, profile_type: None, scale: None, offset: None, units: Some("kcal") }) {
                Ok(f) => Ok(Monitoring::ActiveCalories(f)),
                Err(x) => Err(x),
            },
            24 => match decode_field(buffer, endian, FieldProfile { base: BaseType::Bytes, profile_type: None, scale: None, offset: None, units: None }) {
                Ok(f) => Ok(Monitoring::CurrentActivityTypeIntensity(f)),
                Err(x) => Err(x),
            },
            25 => match decode_field(buffer, endian, FieldProfile { base: BaseType::Uint8, profile_type: None, scale: None, offset: None, units: Some("min") }) {
                Ok(f) => Ok(Monitoring::TimestampMin8(f)),
                Err(x) => Err(x),
            },
            26 => match decode_field(buffer, endian, FieldProfile { base: BaseType::Uint16, profile_type: None, scale: None, offset: None, units: Some("s") }) {
                Ok(f) => Ok(Monitoring::Timestamp16(f)),
                Err(x) => Err(x),
            },
            27 => match decode_field(buffer, endian, FieldProfile { base: BaseType::Uint8, profile_type: None, scale: None, offset: None, units: Some("bpm") }) {
                Ok(f) => Ok(Monitoring::HeartRate(f)),
                Err(x) => Err(x),
            },
            28 => match decode_field(buffer, endian, FieldProfile { base: BaseType::Uint8, profile_type: None, scale: Some(Scale { num: 10, den: 1 }), offset: None, units: None }) {
                Ok(f) => Ok(Monitoring::Intensity(f)),
                Err(x) => Err(x),
            },
            29 => match decode_field(buffer, endian, FieldProfile { base: BaseType::Uint16, profile_type: None, scale: None, offset: None, units: Some("min") }) {
                Ok(f) => Ok(Monitoring::DurationMin(f)),
                Err(x) => Err(x),
            },
            30 => match decode_field(buffer, endian, FieldProfile { base: BaseType::Uint32, profile_type: None, scale: None, offset: None, units: Some("s") }) {
                Ok(f) => Ok(Monitoring::Duration(f)),
                Err(x) => Err(x),
            },
            31 => match decode_field(buffer, endian, FieldProfile { base: BaseType::Uint32, profile_type: None, scale: Some(Scale { num: 1000, den: 1 }), offset: None, units: Some("m") }) {
                Ok(f) => Ok(Monitoring::Ascent(f)),
                Err(x) => Err(x),
            },
            32 => match decode_field(buffer, endian, FieldProfile { base: BaseType::Uint32, profile_type: None, scale: Some(Scale { num: 1000, den: 1 }), offset: None, units: Some("m") }) {
                Ok(f) => Ok(Monitoring::Descent(f)),
                Err(x) => Err(x),
            },
            33 => match decode_field(buffer, endian, FieldProfile { base: BaseType::Uint16, profile_type: None, scale: None, offset: None, units: Some("minutes") }) {
                Ok(f) => Ok(Monitoring::ModerateActivityMinutes(f)),
                Err(x) => Err(x),
            },
            34 => match decode_field(buffer, endian, FieldProfile { base: BaseType::Uint16, profile_type: None, scale: None, offset: None, units: Some("minutes") }) {
                Ok(f) => Ok(Monitoring::VigorousActivityMinutes(f)),
                Err(x) => Err(x),
            },
            _ => Ok(Monitoring::Unknown { data: slice_to_vec(buffer), field_def_num }),
        }
    }
}

#[derive(Debug, Clone)]
pub enum Hr {
    Timestamp(Field),
    FractionalTimestamp(Field),
    Time256(Field),
    FilteredBpm(Field),
    EventTimestamp(Field),
    EventTimestamp12(Field),
    Unknown { data: Vec<u8>, field_def_num: u8 },
}

impl Hr {
    /// The profile entry of each field of this message.
    pub open spec fn profile(field_def_num: u8) -> Option<FieldProfile> {
        match field_def_num {
            253 => Some(FieldProfile { base: BaseType::Uint32, profile_type: Some(ProfileType::DateTime), scale: None, offset: None, units: None }),
            0 => Some(FieldProfile { base: BaseType::Uint16, profile_type: None, scale: Some(Scale { num: 32768, den: 1 }), offset: None, units: Some("s") }),
            1 => Some(FieldProfile { base: BaseType::Uint8, profile_type: None, scale: Some(Scale { num: 256, den: 1 }), offset: None, units: Some("s") }),
            6 => Some(FieldProfile { base: BaseType::Uint8, profile_type: None, scale: None, offset: None, units: Some("bpm") }),
            9 => Some(FieldProfile { base: BaseType::Uint32, profile_type: None, scale: Some(Scale { num: 1024, den: 1 }), offset: None, units: Some("s") }),
            10 => Some(FieldProfile { base: BaseType::Bytes, profile_type: None, scale: None, offset: None, units: Some("s") }),
            _ => None,
        }
    }

    /// The field this value holds.
    pub open spec fn entry(&self) -> FieldEntry {
        match self {
            Hr::Timestamp(f) => FieldEntry::Known { num: 253, field: f@ },
            Hr::FractionalTimestamp(f) => FieldEntry::Known { num: 0, field: f@ },
            Hr::Time256(f) => FieldEntry::Known { num: 1, field: f@ },
            Hr::FilteredBpm(f) => FieldEntry::Known { num: 6, field: f@ },
            Hr::EventTimestamp(f) => FieldEntry::Known { num: 9, field: f@ },
            Hr::EventTimestamp12(f) => FieldEntry::Known { num: 10, field: f@ },
            Hr::Unknown { data, field_def_num } => FieldEntry::Unknown { num: *field_def_num, data: data@ },
        }
    }

    /// Decodes the byte run `buffer` of field `field_def_num` of this message.
    pub fn decode(buffer: &[u8], field_def_num: u8, endian: Endian) -> (r: Result<Self, Error>)
        ensures
            match r {
                Ok(m) => decode_entry(Self::profile(field_def_num), field_def_num, buffer@, endian)
                    == Ok::<FieldEntry, Error>(m.entry()),
                Err(x) => decode_entry(Self::profile(field_def_num), field_def_num, buffer@, endian)
                    == Err::<FieldEntry, Error>(x),
            },
    {
        match field_def_num {
            253 => match decode_field(buffer, endian, FieldProfile { base: BaseType::Uint32, profile_type: Some(ProfileType::DateTime), scale: None, offset: None, units: None }) {
                Ok(f) => Ok(Hr::Timestamp(f)),
                Err(x) => Err(x),
            },
            0 => match decode_field(buffer, endian, FieldProfile { base: BaseType::Uint16, profile_type: None, scale: Some(Scale { num: 32768, den: 1 }), offset: None, units: Some("s") }) {
                Ok(f) => Ok(Hr::FractionalTimestamp(f)),
                Err(x) => Err(x),
            },
            1 => match decode_field(buffer, endian, FieldProfile { base: BaseType::Uint8, profile_type: None, scale: Some(Scale { num: 256, den: 1 }), offset: None, units: Some("s") }) {
                Ok(f) => Ok(Hr::Time256(f)),
                Err(x) => Err(x),
            },
            6 => match decode_field(buffer, endian, FieldProfile { base: BaseType::Uint8, profile_type: None, scale: None, offset: None, units: Some("bpm") }) {
                Ok(f) => Ok(Hr::FilteredBpm(f)),
                Err(x) => Err(x),
            },
            9 => match decode_field(buffer, endian, FieldProfile { base: BaseType::Uint32, profile_type: None, scale: Some(Scale { num: 1024, den: 1 }), offset: None, units: Some("s") }) {
                Ok(f) => Ok(Hr::EventTimestamp(f)),
                Err(x) => Err(x),
            },
            10 => match decode_field(buffer, endian, FieldProfile { base: BaseType::Bytes, profile_type: None, scale: None, offset: None, units: Some("s") }) {
                Ok(f) => Ok(Hr::EventTimestamp12(f)),
                Err(x) => Err(x),
            },
            _ => Ok(Hr::Unknown { data: slice_to_vec(buffer), field_def_num }),
        }
    }
}

/// Value from 1 to 100 calculated by FirstBeat
#[derive(Debug, Clone)]
pub enum StressLevel {
    StressLevelValue(Field),
    /// Time stress score was calculated
    StressLevelTime(Field),
    Unknown { data: Vec<u8>, field_def_num: u8 },
}

impl StressLevel {
    /// The profile entry of each field of this message.
    pub open spec fn profile(field_def_num: u8) -> Option<FieldProfile> {
        match field_def_num {
            0 => Some(FieldProfile { base: BaseType::Sint16, profile_type: None, scale: None, offset: None, units: None }),
            1 => Some(FieldProfile { base: BaseType::Uint32, profile_type: Some(ProfileType::DateTime), scale: None, offset: None, units: Some("s") }),
            _ => None,
        }
    }

    /// The field this value holds.
    pub open spec fn entry(&self) -> FieldEntry {
        match self {
            StressLevel::StressLevelValue(f) => FieldEntry::Known { num: 0, field: f@ },
            StressLevel::StressLevelTime(f) => FieldEntry::Known { num: 1, field: f@ },
            StressLevel::Unknown { data, field_def_num } => FieldEntry::Unknown { num: *field_def_num, data: data@ },
        }
    }

    /// Decodes the byte run `buffer` of field `field_def_num` of this message.
    pub fn decode(buffer: &[u8], field_def_num: u8, endian: Endian) -> (r: Result<Self, Error>)
        ensures
            match r {
                Ok(m) => decode_entry(Self::profile(field_def_num), field_def_num, buffer@, endian)
                    == Ok::<FieldEntry, Error>(m.entry()),
                Err(x) => decode_entry(Self::profile(field_def_num), field_def_num, buffer@, endian)
                    == Err::<FieldEntry, Error>(x),
            },
    {
        match field_def_num {
            0 => match decode_field(buffer, endian, FieldProfile { base: BaseType::Sint16, profile_type: None, scale: None, offset: None, units: None }) {
                Ok(f) => Ok(StressLevel::StressLevelValue(f)),
                Err(x) => Err(x),
            },
            1 => match decode_field(buffer, endian, FieldProfile { base: BaseType::Uint32, profile_type: Some(ProfileType::DateTime), scale: None, offset: None, units: Some("s") }) {
                Ok(f) => Ok(StressLevel::StressLevelTime(f)),
                Err(x) => Err(x),
            },
            _ => Ok(StressLevel::Unknown { data: slice_to_vec(buffer), field_def_num }),
        }
    }
}

#[derive(Debug, Clone)]
pub enum MemoGlob {
    /// Sequence number of memo blocks
    PartIndex(Field),
    /// Block of utf8 bytes
    Memo(Field),
    /// Allows relating glob to another mesg  If used only required for first part of each memo_glob
    MessageNumber(Field),
    /// Index of external mesg
    MessageIndex(Field),
    Unknown { data: Vec<u8>, field_def_num: u8 },
}

impl MemoGlob {
    /// The profile entry of each field of this message.
    pub open spec fn profile(field_def_num: u8) -> Option<FieldProfile> {
        match field_def_num {
            250 => Some(FieldProfile { base: BaseType::Uint32, profile_type: None, scale: None, offset: None, units: None }),
            0 => Some(FieldProfile { base: BaseType::Bytes, profile_type: None, scale: None, offset: None, units: None }),
            1 => Some(FieldProfile { base: BaseType::Uint16, profile_type: None, scale: None, offset: None, units: None }),
            2 => Some(FieldProfile { base: BaseType::Uint16, profile_type: Some(ProfileType::MessageIndex), scale: None, offset: None, units: None }),
            _ => None,
        }
    }

    /// The field this value holds.
    pub open spec fn entry(&self) -> FieldEntry {
        match self {
            MemoGlob::PartIndex(f) => FieldEntry::Known { num: 250, field: f@ },
            MemoGlob::Memo(f) => FieldEntry::Known { num: 0, field: f@ },
            MemoGlob::MessageNumber(f) => FieldEntry::Known { num: 1, field: f@ },
            MemoGlob::MessageIndex(f) => FieldEntry::Known { num: 2, field: f@ },
            MemoGlob::Unknown { data, field_def_num } => FieldEntry::Unknown { num: *field_def_num, data: data@ },
        }
    }

    /// Decodes the byte run `buffer` of field `field_def_num` of this message.
    pub fn decode(buffer: &[u8], field_def_num: u8, endian: Endian) -> (r: Result<Self, Error>)
        ensures
            match r {
                Ok(m) => decode_entry(Self::profile(field_def_num), field_def_num, buffer@, endian)
                    == Ok::<FieldEntry, Error>(m.entry()),
                Err(x) => decode_entry(Self::profile(field_def_num), field_def_num, buffer@, endian)
                    == Err::<FieldEntry, Error>(x),
            },
    {
        match field_def_num {
            250 => match decode_field(buffer, endian, FieldProfile { base: BaseType::Uint32, profile_type: None, scale: None, offset: None, units: None }) {
                Ok(f) => Ok(MemoGlob::PartIndex(f)),
                Err(x) => Err(x),
            },
            0 => match decode_field(buffer, endian, FieldProfile { base: BaseType::Bytes, profile_type: None, scale: None, offset: None, units: None }) {
                Ok(f) => Ok(MemoGlob::Memo(f)),
                Err(x) => Err(x),
            },
            1 => match decode_field(buffer, endian, FieldProfile { base: BaseType::Uint16, profile_type: None, scale: None, offset: None, units: None }) {
                Ok(f) => Ok(MemoGlob::MessageNumber(f)),
                Err(x) => Err(x),
            },
            2 => match decode_field(buffer, endian, FieldProfile { base: BaseType::Uint16, profile_type: Some(ProfileType::MessageIndex), scale: None, offset: None, units: None }) {
                Ok(f) => Ok(MemoGlob::MessageIndex(f)),
                Err(x) => Err(x),
            },
            _ => Ok(MemoGlob::Unknown { data: slice_to_vec(buffer), field_def_num }),
        }
    }
}

#[derive(Debug, Clone)]
pub enum AntChannelId {
    ChannelNumber(Field),
    DeviceType(Field),
    DeviceNumber(Field),
    TransmissionType(Field),
    DeviceIndex(Field),
    Unknown { data: Vec<u8>, field_def_num: u8 },
}

impl AntChannelId {
    /// The profile entry of each field of this message.
    pub open spec fn profile(field_def_num: u8) -> Option<FieldProfile> {
        match field_def_num {
            0 => Some(FieldProfile { base: BaseType::Uint8, profile_type: None, scale: None, offset: None, units: None }),
            1 => Some(FieldProfile { base: BaseType::Uint8z, profile_type: None, scale: None, offset: None, units: None }),
            2 => Some(FieldProfile { base: BaseType::Uint16z, profile_type: None, scale: None, offset: None, units: None }),
            3 => Some(FieldProfile { base: BaseType::Uint8z, profile_type: None, scale: None, offset: None, units: None }),
            4 => Some(FieldProfile { base: BaseType::Uint8, profile_type: Some(ProfileType::DeviceIndex), scale: None, offset: None, units: None }),
            _ => None,
        }
    }

    /// The field this value holds.
    pub open spec fn entry(&self) -> FieldEntry {
        match self {
            AntChannelId::ChannelNumber(f) => FieldEntry::Known { num: 0, field: f@ },
            AntChannelId::DeviceType(f) => FieldEntry::Known { num: 1, field: f@ },
            AntChannelId::DeviceNumber(f) => FieldEntry::Known { num: 2, field: f@ },
            AntChannelId::TransmissionType(f) => FieldEntry::Known { num: 3, field: f@ },
            AntChannelId::DeviceIndex(f) => FieldEntry::Known { num: 4, field: f@ },
            AntChannelId::Unknown { data, field_def_num } => FieldEntry::Unknown { num: *field_def_num, data: data@ },
        }
    }

    /// Decodes the byte run `buffer` of field `field_def_num` of this message.
    pub fn decode(buffer: &[u8], field_def_num: u8, endian: Endian) -> (r: Result<Self, Error>)
        ensures
            match r {
                Ok(m) => decode_entry(Self::profile(field_def_num), field_def_num, buffer@, endian)
                    == Ok::<FieldEntry, Error>(m.entry()),
                Err(x) => decode_entry(Self::profile(field_def_num), field_def_num, buffer@, endian)
                    == Err::<FieldEntry, Error>(x),
            },
    {
        match field_def_num {
            0 => match decode_field(buffer, endian, FieldProfile { base: BaseType::Uint8, profile_type: None, scale: None, offset: None, units: None }) {
                Ok(f) => Ok(AntChannelId::ChannelNumber(f)),
                Err(x) => Err(x),
            },
            1 => match decode_field(buffer, endian, FieldProfile { base: BaseType::Uint8z, profile_type: None, scale: None, offset: None, units: None }) {
                Ok(f) => Ok(AntChannelId::DeviceType(f)),
                Err(x) => Err(x),
            },
            2 => match decode_field(buffer, endian, FieldProfile { base: BaseType::Uint16z, profile_type: None, scale: None, offset: None, units: None }) {
                Ok(f) => Ok(AntChannelId::DeviceNumber(f)),
                Err(x) => Err(x),
            },
            3 => match decode_field(buffer, endian, FieldProfile { base: BaseType::Uint8z, profile_type: None, scale: None, offset: None, units: None }) {
                Ok(f) => Ok(AntChannelId::TransmissionType(f)),
                Err(x) => Err(x),
            },
            4 => match decode_field(buffer, endian, FieldProfile { base: BaseType::Uint8, profile_type: Some(ProfileType::DeviceIndex), scale: None, offset: None, units: None }) {
                Ok(f) => Ok(AntChannelId::DeviceIndex(f)),
                Err(x) => Err(x),
            },
            _ => Ok(AntChannelId::Unknown { data: slice_to_vec(buffer), field_def_num }),
        }
    }
}

#[derive(Debug, Clone)]
pub enum AntRx {
    Timestamp(Field),
    FractionalTimestamp(Field),
    MesgId(Field),
    MesgData(Field),
    ChannelNumber(Field),
    Data(Field),
    Unknown { data: Vec<u8>, field_def_num: u8 },
}

impl AntRx {
    /// The profile entry of each field of this message.
    pub open spec fn profile(field_def_num: u8) -> Option<FieldProfile> {
        match field_def_num {
            253 => Some(FieldProfile { base: BaseType::Uint32, profile_type: Some(ProfileType::DateTime), scale: None, offset: None, units: Some("s") }),
            0 => Some(FieldProfile { base: BaseType::Uint16, profile_type: None, scale: Some(Scale { num: 32768, den: 1 }), offset: None, units: Some("s") }),
            1 => Some(FieldProfile { base: BaseType::Bytes, profile_type: None, scale: None, offset: None, units: None }),
            2 => Some(FieldProfile { base: BaseType::Bytes, profile_type: None, scale: None, offset: None, units: None }),
            3 => Some(FieldProfile { base: BaseType::Uint8, profile_type: None, scale: None, offset: None, units: None }),
            4 => Some(FieldProfile { base: BaseType::Bytes, profile_type: None, scale: None, offset: None, units: None }),
            _ => None,
        }
    }

    /// The field this value holds.
    pub open spec fn entry(&self) -> FieldEntry {
        match self {
            AntRx::Timestamp(f) => FieldEntry::Known { num: 253, field: f@ },
            AntRx::FractionalTimestamp(f) => FieldEntry::Known { num: 0, field: f@ },
            AntRx::MesgId(f) => FieldEntry::Known { num: 1, field: f@ },
            AntRx::MesgData(f) => FieldEntry::Known { num: 2, field: f@ },
            AntRx::ChannelNumber(f) => FieldEntry::Known { num: 3, field: f@ },
            AntRx::Data(f) => FieldEntry::Known { num: 4, field: f@ },
            AntRx::Unknown { data, field_def_num } => FieldEntry::Unknown { num: *field_def_num, data: data@ },
        }
    }

    /// Decodes the byte run `buffer` of field `field_def_num` of this message.
    pub fn decode(buffer: &[u8], field_def_num: u8, endian: Endian) -> (r: Result<Self, Error>)
        ensures
            match r {
                Ok(m) => decode_entry(Self::profile(field_def_num), field_def_num, buffer@, endian)
                    == Ok::<FieldEntry, Error>(m.entry()),
                Err(x) => decode_entry(Self::profile(field_def_num), field_def_num, buffer@, endian)
                    == Err::<FieldEntry, Error>(x),
            },
    {
        match field_def_num {
            253 => match decode_field(buffer, endian, FieldProfile { base: BaseType::Uint32, profile_type: Some(ProfileType::DateTime), scale: None, offset: None, units: Some("s") }) {
                Ok(f) => Ok(AntRx::Timestamp(f)),
                Err(x) => Err(x),
            },
            0 => match decode_field(buffer, endian, FieldProfile { base: BaseType::Uint16, profile_type: None, scale: Some(Scale { num: 32768, den: 1 }), offset: None, units: Some("s") }) {
                Ok(f) => Ok(AntRx::FractionalTimestamp(f)),
                Err(x) => Err(x),
            },
            1 => match decode_field(buffer, endian, FieldProfile { base: BaseType::Bytes, profile_type: None, scale: None, offset: None, units: None }) {
                Ok(f) => Ok(AntRx::MesgId(f)),
                Err(x) => Err(x),
            },
            2 => match decode_field(buffer, endian, FieldProfile { base: BaseType::Bytes, profile_type: None, scale: None, offset: None, units: None }) {
                Ok(f) => Ok(AntRx::MesgData(f)),
                Err(x) => Err(x),
            },
            3 => match decode_field(buffer, endian, FieldProfile { base: BaseType::Uint8, profile_type: None, scale: None, offset: None, units: None }) {
                Ok(f) => Ok(AntRx::ChannelNumber(f)),
                Err(x) => Err(x),
            },
            4 => match decode_field(buffer, endian, FieldProfile { base: BaseType::Bytes, profile_type: None, scale: None, offset: None, units: None }) {
                Ok(f) => Ok(AntRx::Data(f)),
                Err(x) => Err(x),
            },
            _ => Ok(AntRx::Unknown { data: slice_to_vec(buffer), field_def_num }),
        }
    }
}

#[derive(Debug, Clone)]
pub enum AntTx {
    Timestamp(Field),
    FractionalTimestamp(Field),
    MesgId(Field),
    MesgData(Field),
    ChannelNumber(Field),
    Data(Field),
    Unknown { data: Vec<u8>, field_def_num: u8 },
}

impl AntTx {
    /// The profile entry of each field of this message.
    pub open spec fn profile(field_def_num: u8) -> Option<FieldProfile> {
        match field_def_num {
            253 => Some(FieldProfile { base: BaseType::Uint32, profile_type: Some(ProfileType::DateTime), scale: None, offset: None, units: Some("s") }),
            0 => Some(FieldProfile { base: BaseType::Uint16, profile_type: None, scale: Some(Scale { num: 32768, den: 1 }), offset: None, units: Some("s") }),
            1 => Some(FieldProfile { base: BaseType::Bytes, profile_type: None, scale: None, offset: None, units: None }),
            2 => Some(FieldProfile { base: BaseType::Bytes, profile_type: None, scale: None, offset: None, units: None }),
            3 => Some(FieldProfile { base: BaseType::Uint8, profile_type: None, scale: None, offset: None, units: None }),
            4 => Some(FieldProfile { base: BaseType::Bytes, profile_type: None, scale: None, offset: None, units: None }),
            _ => None,
        }
    }

    /// The field this value holds.
    pub open spec fn entry(&self) -> FieldEntry {
        match self {
            AntTx::Timestamp(f) => FieldEntry::Known { num: 253, field: f@ },
            AntTx::FractionalTimestamp(f) => FieldEntry::Known { num: 0, field: f@ },
            AntTx::MesgId(f) => FieldEntry::Known { num: 1, field: f@ },
            AntTx::MesgData(f) => FieldEntry::Known { num: 2, field: f@ },
            AntTx::ChannelNumber(f) => FieldEntry::Known { num: 3, field: f@ },
            AntTx::Data(f) => FieldEntry::Known { num: 4, field: f@ },
            AntTx::Unknown { data, field_def_num } => FieldEntry::Unknown { num: *field_def_num, data: data@ },
        }
    }

    /// Decodes the byte run `buffer` of field `field_def_num` of this message.
    pub fn decode(buffer: &[u8], field_def_num: u8, endian: Endian) -> (r: Result<Self, Error>)
        ensures
            match r {
                Ok(m) => decode_entry(Self::profile(field_def_num), field_def_num, buffer@, endian)
                    == Ok::<FieldEntry, Error>(m.entry()),
                Err(x) => decode_entry(Self::profile(field_def_num), field_def_num, buffer@, endian)
                    == Err::<FieldEntry, Error>(x),
            },
    {
        match field_def_num {
            253 => match decode_field(buffer, endian, FieldProfile { base: BaseType::Uint32, profile_type: Some(ProfileType::DateTime), scale: None, offset: None, units: Some("s") }) {
                Ok(f) => Ok(AntTx::Timestamp(f)),
                Err(x) => Err(x),
            },
            0 => match decode_field(buffer, endian, FieldProfile { base: BaseType::Uint16, profile_type: None, scale: Some(Scale { num: 32768, den: 1 }), offset: None, units: Some("s") }) {
                Ok(f) => Ok(AntTx::FractionalTimestamp(f)),
                Err(x) => Err(x),
            },
            1 => match decode_field(buffer, endian, FieldProfile { base: BaseType::Bytes, profile_type: None, scale: None, offset: None, units: None }) {
                Ok(f) => Ok(AntTx::MesgId(f)),
                Err(x) => Err(x),
            },
            2 => match decode_field(buffer, endian, FieldProfile { base: BaseType::Bytes, profile_type: None, scale: None, offset: None, units: None }) {
                Ok(f) => Ok(AntTx::MesgData(f)),
                Err(x) => Err(x),
            },
            3 => match decode_field(buffer, endian, FieldProfile { base: BaseType::Uint8, profile_type: None, scale: None, offset: None, units: None }) {
                Ok(f) => Ok(AntTx::ChannelNumber(f)),
                Err(x) => Err(x),
            },
            4 => match decode_field(buffer, endian, FieldProfile { base: BaseType::Bytes, profile_type: None, scale: None, offset: None, units: None }) {
                Ok(f) => Ok(AntTx::Data(f)),
                Err(x) => Err(x),
            },
            _ => Ok(AntTx::Unknown { data: slice_to_vec(buffer), field_def_num }),
        }
    }
}

#[derive(Debug, Clone)]
pub enum ExdScreenConfiguration {
    ScreenIndex(Field),
    /// number of fields in screen
    FieldCount(Field),
    Layout(Field),
    ScreenEnabled(Field),
    Unknown { data: Vec<u8>, field_def_num: u8 },
}

impl ExdScreenConfiguration {
    /// The profile entry of each field of this message.
    pub open spec fn profile(field_def_num: u8) -> Option<FieldProfile> {
        match field_def_num {
            0 => Some(FieldProfile { base: BaseType::Uint8, profile_type: None, scale: None, offset: None, units: None }),
            1 => Some(FieldProfile { base: BaseType::Uint8, profile_type: None, scale: None, offset: None, units: None }),
            2 => Some(FieldProfile { base: BaseType::Enum, profile_type: Some(ProfileType::ExdLayout), scale: None, offset: None, units: None }),
            3 => Some(FieldProfile { base: BaseType::Bool, profile_type: None, scale: None, offset: None, units: None }),
            _ => None,
        }
    }

    /// The field this value holds.
    pub open spec fn entry(&self) -> FieldEntry {
        match self {
            ExdScreenConfiguration::ScreenIndex(f) => FieldEntry::Known { num: 0, field: f@ },
            ExdScreenConfiguration::FieldCount(f) => FieldEntry::Known { num: 1, field: f@ },
            ExdScreenConfiguration::Layout(f) => FieldEntry::Known { num: 2, field: f@ },
            ExdScreenConfiguration::ScreenEnabled(f) => FieldEntry::Known { num: 3, field: f@ },
            ExdScreenConfiguration::Unknown { data, field_def_num } => FieldEntry::Unknown { num: *field_def_num, data: data@ },
        }
    }

    /// Decodes the byte run `buffer` of field `field_def_num` of this message.
    pub fn decode(buffer: &[u8], field_def_num: u8, endian: Endian) -> (r: Result<Self, Error>)
        ensures
            match r {
                Ok(m) => decode_entry(Self::profile(field_def_num), field_def_num, buffer@, endian)
                    == Ok::<FieldEntry, Error>(m.entry()),
                Err(x) => decode_entry(Self::profile(field_def_num), field_def_num, buffer@, endian)
                    == Err::<FieldEntry, Error>(x),
            },
    {
        match field_def_num {
            0 => match decode_field(buffer, endian, FieldProfile { base: BaseType::Uint8, profile_type: None, scale: None, offset: None, units: None }) {
                Ok(f) => Ok(ExdScreenConfiguration::ScreenIndex(f)),
                Err(x) => Err(x),
            },
            1 => match decode_field(buffer, endian, FieldProfile { base: BaseType::Uint8, profile_type: None, scale: None, offset: None, units: None }) {
                Ok(f) => Ok(ExdScreenConfiguration::FieldCount(f)),
                Err(x) => Err(x),
            },
            2 => match decode_field(buffer, endian, FieldProfile { base: BaseType::Enum, profile_type: Some(ProfileType::ExdLayout), scale: None, offset: None, units: None }) {
                Ok(f) => Ok(ExdScreenConfiguration::Layout(f)),
                Err(x) => Err(x),
            },
            3 => match decode_field(buffer, endian, FieldProfile { base: BaseType::Bool, profile_type: None, scale: None, offset: None, units: None }) {
                Ok(f) => Ok(ExdScreenConfiguration::ScreenEnabled(f)),
                Err(x) => Err(x),
            },
            _ => Ok(ExdScreenConfiguration::Unknown { data: slice_to_vec(buffer), field_def_num }),
        }
    }
}

#[derive(Debug, Clone)]
pub enum ExdDataFieldConfiguration {
    ScreenIndex(Field),
    ConceptField(Field),
    FieldId(Field),
    ConceptCount(Field),
    DisplayType(Field),
    Title(Field),
    Unknown { data: Vec<u8>, field_def_num: u8 },
}

impl ExdDataFieldConfiguration {
    /// The profile entry of each field of this message.
    pub open spec fn profile(field_def_num: u8) -> Option<FieldProfile> {
        match field_def_num {
            0 => Some(FieldProfile { base: BaseType::Uint8, profile_type: None, scale: None, offset: None, units: None }),
            1 => Some(FieldProfile { base: BaseType::Bytes, profile_type: None, scale: None, offset: None, units: None }),
            2 => Some(FieldProfile { base: BaseType::Uint8, profile_type: None, scale: None, offset: None, units: None }),
            3 => Some(FieldProfile { base: BaseType::Uint8, profile_type: None, scale: None, offset: None, units: None }),
            4 => Some(FieldProfile { base: BaseType::Enum, profile_type: Some(ProfileType::ExdDisplayType), scale: None, offset: None, units: None }),
            5 => Some(FieldProfile { base: BaseType::Utf8String, profile_type: None, scale: None, offset: None, units: None }),
            _ => None,
        }
    }

    /// The field this value holds.
    pub open spec fn entry(&self) -> FieldEntry {
        match self {
            ExdDataFieldConfiguration::ScreenIndex(f) => FieldEntry::Known { num: 0, field: f@ },
            ExdDataFieldConfiguration::ConceptField(f) => FieldEntry::Known { num: 1, field: f@ },
            ExdDataFieldConfiguration::FieldId(f) => FieldEntry::Known { num: 2, field: f@ },
            ExdDataFieldConfiguration::ConceptCount(f) => FieldEntry::Known { num: 3, field: f@ },
            ExdDataFieldConfiguration::DisplayType(f) => FieldEntry::Known { num: 4, field: f@ },
            ExdDataFieldConfiguration::Title(f) => FieldEntry::Known { num: 5, field: f@ },
            ExdDataFieldConfiguration::Unknown { data, field_def_num } => FieldEntry::Unknown { num: *field_def_num, data: data@ },
        }
    }

    /// Decodes the byte run `buffer` of field `field_def_num` of this message.
    pub fn decode(buffer: &[u8], field_def_num: u8, endian: Endian) -> (r: Result<Self, Error>)
        ensures
            match r {
                Ok(m) => decode_entry(Self::profile(field_def_num), field_def_num, buffer@, endian)
                    == Ok::<FieldEntry, Error>(m.entry()),
                Err(x) => decode_entry(Self::profile(field_def_num), field_def_num, buffer@, endian)
                    == Err::<FieldEntry, Error>(x),
            },
    {
        match field_def_num {
            0 => match decode_field(buffer, endian, FieldProfile { base: BaseType::Uint8, profile_type: None, scale: None, offset: None, units: None }) {
                Ok(f) => Ok(ExdDataFieldConfiguration::ScreenIndex(f)),
                Err(x) => Err(x),
            },
            1 => match decode_field(buffer, endian, FieldProfile { base: BaseType::Bytes, profile_type: None, scale: None, offset: None, units: None }) {
                Ok(f) => Ok(ExdDataFieldConfiguration::ConceptField(f)),
                Err(x) => Err(x),
            },
            2 => match decode_field(buffer, endian, FieldProfile { base: BaseType::Uint8, profile_type: None, scale: None, offset: None, units: None }) {
                Ok(f) => Ok(ExdDataFieldConfiguration::FieldId(f)),
                Err(x) => Err(x),
            },
            3 => match decode_field(buffer, endian, FieldProfile { base: BaseType::Uint8, profile_type: None, scale: None, offset: None, units: None }) {
                Ok(f) => Ok(ExdDataFieldConfiguration::ConceptCount(f)),
                Err(x) => Err(x),
            },
            4 => match decode_field(buffer, endian, FieldProfile { base: BaseType::Enum, profile_type: Some(ProfileType::ExdDisplayType), scale: None, offset: None, units: None }) {
                Ok(f) => Ok(ExdDataFieldConfiguration::DisplayType(f)),
                Err(x) => Err(x),
            },
            5 => match decode_field(buffer, endian, FieldProfile { base: BaseType::Utf8String, profile_type: None, scale: None, offset: None, units: None }) {
                Ok(f) => Ok(ExdDataFieldConfiguration::Title(f)),
                Err(x) => Err(x),
            },
            _ => Ok(ExdDataFieldConfiguration::Unknown { data: slice_to_vec(buffer), field_def_num }),
        }
    }
}

#[derive(Debug, Clone)]
pub enum ExdDataConceptConfiguration {
    ScreenIndex(Field),
    ConceptField(Field),
    FieldId(Field),
    ConceptIndex(Field),
    DataPage(Field),
    ConceptKey(Field),
    Scaling(Field),
    DataUnits(Field),
    Qualifier(Field),
    Descriptor(Field),
    IsSigned(Field),
    Unknown { data: Vec<u8>, field_def_num: u8 },
}

impl ExdDataConceptConfiguration {
    /// The profile entry of each field of this message.
    pub open spec fn profile(field_def_num: u8) -> Option<FieldProfile> {
        match field_def_num {
            0 => Some(FieldProfile { base: BaseType::Uint8, profile_type: None, scale: None, offset: None, units: None }),
            1 => Some(FieldProfile { base: BaseType::Bytes, profile_type: None, scale: None, offset: None, units: None }),
            2 => Some(FieldProfile { base: BaseType::Uint8, profile_type: None, scale: None, offset: None, units: None }),
            3 => Some(FieldProfile { base: BaseType::Uint8, profile_type: None, scale: None, offset: None, units: None }),
            4 => Some(FieldProfile { base: BaseType::Uint8, profile_type: None, scale: None, offset: None, units: None }),
            5 => Some(FieldProfile { base: BaseType::Uint8, profile_type: None, scale: None, offset: None, units: None }),
            6 => Some(FieldProfile { base: BaseType::Uint8, profile_type: None, scale: None, offset: None, units: None }),
            8 => Some(FieldProfile { base: BaseType::Enum, profile_type: Some(ProfileType::ExdDataUnits), scale: None, offset: None, units: None }),
            9 => Some(FieldProfile { base: BaseType::Enum, profile_type: Some(ProfileType::ExdQualifiers), scale: None, offset: None, units: None }),
            10 => Some(FieldProfile { base: BaseType::Enum, profile_type: Some(ProfileType::ExdDescriptors), scale: None, offset: None, units: None }),
            11 => Some(FieldProfile { base: BaseType::Bool, profile_type: None, scale: None, offset: None, units: None }),
            _ => None,
        }
    }

    /// The field this value holds.
    pub open spec fn entry(&self) -> FieldEntry {
        match self {
            ExdDataConceptConfiguration::ScreenIndex(f) => FieldEntry::Known { num: 0, field: f@ },
            ExdDataConceptConfiguration::ConceptField(f) => FieldEntry::Known { num: 1, field: f@ },
            ExdDataConceptConfiguration::FieldId(f) => FieldEntry::Known { num: 2, field: f@ },
            ExdDataConceptConfiguration::ConceptIndex(f) => FieldEntry::Known { num: 3, field: f@ },
            ExdDataConceptConfiguration::DataPage(f) => FieldEntry::Known { num: 4, field: f@ },
            ExdDataConceptConfiguration::ConceptKey(f) => FieldEntry::Known { num: 5, field: f@ },
            ExdDataConceptConfiguration::Scaling(f) => FieldEntry::Known { num: 6, field: f@ },
            ExdDataConceptConfiguration::DataUnits(f) => FieldEntry::Known { num: 8, field: f@ },
            ExdDataConceptConfiguration::Qualifier(f) => FieldEntry::Known { num: 9, field: f@ },
            ExdDataConceptConfiguration::Descriptor(f) => FieldEntry::Known { num: 10, field: f@ },
            ExdDataConceptConfiguration::IsSigned(f) => FieldEntry::Known { num: 11, field: f@ },
            ExdDataConceptConfiguration::Unknown { data, field_def_num } => FieldEntry::Unknown { num: *field_def_num, data: data@ },
        }
    }

    /// Decodes the byte run `buffer` of field `field_def_num` of this message.
    pub fn decode(buffer: &[u8], field_def_num: u8, endian: Endian) -> (r: Result<Self, Error>)
        ensures
            match r {
                Ok(m) => decode_entry(Self::profile(field_def_num), field_def_num, buffer@, endian)
                    == Ok::<FieldEntry, Error>(m.entry()),
                Err(x) => decode_entry(Self::profile(field_def_num), field_def_num, buffer@, endian)
                    == Err::<FieldEntry, Error>(x),
            },
    {
        match field_def_num {
            0 => match decode_field(buffer, endian, FieldProfile { base: BaseType::Uint8, profile_type: None, scale: None, offset: None, units: None }) {
                Ok(f) => Ok(ExdDataConceptConfiguration::ScreenIndex(f)),
                Err(x) => Err(x),
            },
            1 => match decode_field(buffer, endian, FieldProfile { base: BaseType::Bytes, profile_type: None, scale: None, offset: None, units: None }) {
                Ok(f) => Ok(ExdDataConceptConfiguration::ConceptField(f)),
                Err(x) => Err(x),
            },
            2 => match decode_field(buffer, endian, FieldProfile { base: BaseType::Uint8, profile_type: None, scale: None, offset: None, units: None }) {
                Ok(f) => Ok(ExdDataConceptConfiguration::FieldId(f)),
                Err(x) => Err(x),
            },
            3 => match decode_field(buffer, endian, FieldProfile { base: BaseType::Uint8, profile_type: None, scale: None, offset: None, units: None }) {
                Ok(f) => Ok(ExdDataConceptConfiguration::ConceptIndex(f)),
                Err(x) => Err(x),
            },
            4 => match decode_field(buffer, endian, FieldProfile { base: BaseType::Uint8, profile_type: None, scale: None, offset: None, units: None }) {
                Ok(f) => Ok(ExdDataConceptConfiguration::DataPage(f)),
                Err(x) => Err(x),
            },
            5 => match decode_field(buffer, endian, FieldProfile { base: BaseType::Uint8, profile_type: None, scale: None, offset: None, units: None }) {
                Ok(f) => Ok(ExdDataConceptConfiguration::ConceptKey(f)),
                Err(x) => Err(x),
            },
            6 => match decode_field(buffer, endian, FieldProfile { base: BaseType::Uint8, profile_type: None, scale: None, offset: None, units: None }) {
                Ok(f) => Ok(ExdDataConceptConfiguration::Scaling(f)),
                Err(x) => Err(x),
            },
            8 => match decode_field(buffer, endian, FieldProfile { base: BaseType::Enum, profile_type: Some(ProfileType::ExdDataUnits), scale: None, offset: None, units: None }) {
                Ok(f) => Ok(ExdDataConceptConfiguration::DataUnits(f)),
                Err(x) => Err(x),
            },
            9 => match decode_field(buffer, endian, FieldProfile { base: BaseType::Enum, profile_type: Some(ProfileType::ExdQualifiers), scale: None, offset: None, units: None }) {
                Ok(f) => Ok(ExdDataConceptConfiguration::Qualifier(f)),
                Err(x) => Err(x),
            },
            10 => match decode_field(buffer, endian, FieldProfile { base: BaseType::Enum, profile_type: Some(ProfileType::ExdDescriptors), scale: None, offset: None, units: None }) {
                Ok(f) => Ok(ExdDataConceptConfiguration::Descriptor(f)),
                Err(x) => Err(x),
            },
            11 => match decode_field(buffer, endian, FieldProfile { base: BaseType::Bool, profile_type: None, scale: None, offset: None, units: None }) {
                Ok(f) => Ok(ExdDataConceptConfiguration::IsSigned(f)),
                Err(x) => Err(x),
            },
            _ => Ok(ExdDataConceptConfiguration::Unknown { data: slice_to_vec(buffer), field_def_num }),
        }
    }
}

/// Must be logged before developer field is used
#[derive(Debug, Clone)]
pub enum FieldDescription {
    DeveloperDataIndex(Field),
    FieldDefinitionNumber(Field),
    FitBaseTypeId(Field),
    FieldName(Field),
    Array(Field),
    Components(Field),
    Scale(Field),
    Offset(Field),
    Units(Field),
    Bits(Field),
    Accumulate(Field),
    FitBaseUnitId(Field),
    NativeMesgNum(Field),
    NativeFieldNum(Field),
    Unknown { data: Vec<u8>, field_def_num: u8 },
}

impl FieldDescription {
    /// The profile entry of each field of this message.
    pub open spec fn profile(field_def_num: u8) -> Option<FieldProfile> {
        match field_def_num {
            0 => Some(FieldProfile { base: BaseType::Uint8, profile_type: None, scale: None, offset: None, units: None }),
            1 => Some(FieldProfile { base: BaseType::Uint8, profile_type: None, scale: None, offset: None, units: None }),
            2 => Some(FieldProfile { base: BaseType::Uint8, profile_type: Some(ProfileType::FitBaseType), scale: None, offset: None, units: None }),
            3 => Some(FieldProfile { base: BaseType::Utf8String, profile_type: None, scale: None, offset: None, units: None }),
            4 => Some(FieldProfile { base: BaseType::Uint8, profile_type: None, scale: None, offset: None, units: None }),
            5 => Some(FieldProfile { base: BaseType::Utf8String, profile_type: None, scale: None, offset: None, units: None }),
            6 => Some(FieldProfile { base: BaseType::Uint8, profile_type: None, scale: None, offset: None, units: None }),
            7 => Some(FieldProfile { base: BaseType::Sint8, profile_type: None, scale: None, offset: None, units: None }),
            8 => Some(FieldProfile { base: BaseType::Utf8String, profile_type: None, scale: None, offset: None, units: None }),
            9 => Some(FieldProfile { base: BaseType::Utf8String, profile_type: None, scale: None, offset: None, units: None }),
            10 => Some(FieldProfile { base: BaseType::Utf8String, profile_type: None, scale: None, offset: None, units: None }),
            13 => Some(FieldProfile { base: BaseType::Uint16, profile_type: Some(ProfileType::FitBaseUnit), scale: None, offset: None, units: None }),
            14 => Some(FieldProfile { base: BaseType::Uint16, profile_type: Some(ProfileType::MesgNum), scale: None, offset: None, units: None }),
            15 => Some(FieldProfile { base: BaseType::Uint8, profile_type: None, scale: None, offset: None, units: None }),
            _ => None,
        }
    }

    /// The field this value holds.
    pub open spec fn entry(&self) -> FieldEntry {
        match self {
            FieldDescription::DeveloperDataIndex(f) => FieldEntry::Known { num: 0, field: f@ },
            FieldDescription::FieldDefinitionNumber(f) => FieldEntry::Known { num: 1, field: f@ },
            FieldDescription::FitBaseTypeId(f) => FieldEntry::Known { num: 2, field: f@ },
            FieldDescription::FieldName(f) => FieldEntry::Known { num: 3, field: f@ },
            FieldDescription::Array(f) => FieldEntry::Known { num: 4, field: f@ },
            FieldDescription::Components(f) => FieldEntry::Known { num: 5, field: f@ },
            FieldDescription::Scale(f) => FieldEntry::Known { num: 6, field: f@ },
            FieldDescription::Offset(f) => FieldEntry::Known { num: 7, field: f@ },
            FieldDescription::Units(f) => FieldEntry::Known { num: 8, field: f@ },
            FieldDescription::Bits(f) => FieldEntry::Known { num: 9, field: f@ },
            FieldDescription::Accumulate(f) => FieldEntry::Known { num: 10, field: f@ },
            FieldDescription::FitBaseUnitId(f) => FieldEntry::Known { num: 13, field: f@ },
            FieldDescription::NativeMesgNum(f) => FieldEntry::Known { num: 14, field: f@ },
            FieldDescription::NativeFieldNum(f) => FieldEntry::Known { num: 15, field: f@ },
            FieldDescription::Unknown { data, field_def_num } => FieldEntry::Unknown { num: *field_def_num, data: data@ },
        }
    }

    /// Decodes the byte run `buffer` of field `field_def_num` of this message.
    pub fn decode(buffer: &[u8], field_def_num: u8, endian: Endian) -> (r: Result<Self, Error>)
        ensures
            match r {
                Ok(m) => decode_entry(Self::profile(field_def_num), field_def_num, buffer@, endian)
                    == Ok::<FieldEntry, Error>(m.entry()),
                Err(x) => decode_entry(Self::profile(field_def_num), field_def_num, buffer@, endian)
                    == Err::<FieldEntry, Error>(x),
            },
    {
        match field_def_num {
            0 => match decode_field(buffer, endian, FieldProfile { base: BaseType::Uint8, profile_type: None, scale: None, offset: None, units: None }) {
                Ok(f) => Ok(FieldDescription::DeveloperDataIndex(f)),
                Err(x) => Err(x),
            },
            1 => match decode_field(buffer, endian, FieldProfile { base: BaseType::Uint8, profile_type: None, scale: None, offset: None, units: None }) {
                Ok(f) => Ok(FieldDescription::FieldDefinitionNumber(f)),
                Err(x) => Err(x),
            },
            2 => match decode_field(buffer, endian, FieldProfile { base: BaseType::Uint8, profile_type: Some(ProfileType::FitBaseType), scale: None, offset: None, units: None }) {
                Ok(f) => Ok(FieldDescription::FitBaseTypeId(f)),
                Err(x) => Err(x),
            },
            3 => match decode_field(buffer, endian, FieldProfile { base: BaseType::Utf8String, profile_type: None, scale: None, offset: None, units: None }) {
                Ok(f) => Ok(FieldDescription::FieldName(f)),
                Err(x) => Err(x),
            },
            4 => match decode_field(buffer, endian, FieldProfile { base: BaseType::Uint8, profile_type: None, scale: None, offset: None, units: None }) {
                Ok(f) => Ok(FieldDescription::Array(f)),
                Err(x) => Err(x),
            },
            5 => match decode_field(buffer, endian, FieldProfile { base: BaseType::Utf8String, profile_type: None, scale: None, offset: None, units: None }) {
                Ok(f) => Ok(FieldDescription::Components(f)),
                Err(x) => Err(x),
            },
            6 => match decode_field(buffer, endian, FieldProfile { base: BaseType::Uint8, profile_type: None, scale: None, offset: None, units: None }) {
                Ok(f) => Ok(FieldDescription::Scale(f)),
                Err(x) => Err(x),
            },
            7 => match decode_field(buffer, endian, FieldProfile { base: BaseType::Sint8, profile_type: None, scale: None, offset: None, units: None }) {
                Ok(f) => Ok(FieldDescription::Offset(f)),
                Err(x) => Err(x),
            },
            8 => match decode_field(buffer, endian, FieldProfile { base: BaseType::Utf8String, profile_type: None, scale: None, offset: None, units: None }) {
                Ok(f) => Ok(FieldDescription::Units(f)),
                Err(x) => Err(x),
            },
            9 => match decode_field(buffer, endian, FieldProfile { base: BaseType::Utf8String, profile_type: None, scale: None, offset: None, units: None }) {
                Ok(f) => Ok(FieldDescription::Bits(f)),
                Err(x) => Err(x),
            },
            10 => match decode_field(buffer, endian, FieldProfile { base: BaseType::Utf8String, profile_type: None, scale: None, offset: None, units: None }) {
                Ok(f) => Ok(FieldDescription::Accumulate(f)),
                Err(x) => Err(x),
            },
            13 => match decode_field(buffer, endian, FieldProfile { base: BaseType::Uint16, profile_type: Some(ProfileType::FitBaseUnit), scale: None, offset: None, units: None }) {
                Ok(f) => Ok(FieldDescription::FitBaseUnitId(f)),
                Err(x) => Err(x),
            },
            14 => match decode_field(buffer, endian, FieldProfile { base: BaseType::Uint16, profile_type: Some(ProfileType::MesgNum), scale: None, offset: None, units: None }) {
                Ok(f) => Ok(FieldDescription::NativeMesgNum(f)),
                Err(x) => Err(x),
            },
            15 => match decode_field(buffer, endian, FieldProfile { base: BaseType::Uint8, profile_type: None, scale: None, offset: None, units: None }) {
                Ok(f) => Ok(FieldDescription::NativeFieldNum(f)),
                Err(x) => Err(x),
            },
            _ => Ok(FieldDescription::Unknown { data: slice_to_vec(buffer), field_def_num }),
        }
    }
}

/// Must be logged before field description
#[derive(Debug, Clone)]
pub enum DeveloperDataId {
    DeveloperId(Field),
    ApplicationId(Field),
    ManufacturerId(Field),
    DeveloperDataIndex(Field),
    ApplicationVersion(Field),
    Unknown { data: Vec<u8>, field_def_num: u8 },
}

impl DeveloperDataId {
    /// The profile entry of each field of this message.
    pub open spec fn profile(field_def_num: u8) -> Option<FieldProfile> {
        match field_def_num {
            0 => Some(FieldProfile { base: BaseType::Bytes, profile_type: None, scale: None, offset: None, units: None }),
            1 => Some(FieldProfile { base: BaseType::Bytes, profile_type: None, scale: None, offset: None, units: None }),
            2 => Some(FieldProfile { base: BaseType::Uint16, profile_type: Some(ProfileType::Manufacturer), scale: None, offset: None, units: None }),
            3 => Some(FieldProfile { base: BaseType::Uint8, profile_type: None, scale: None, offset: None, units: None }),
            4 => Some(FieldProfile { base: BaseType::Uint32, profile_type: None, scale: None, offset: None, units: None }),
            _ => None,
        }
    }

    /// The field this value holds.
    pub open spec fn entry(&self) -> FieldEntry {
        match self {
            DeveloperDataId::DeveloperId(f) => FieldEntry::Known { num: 0, field: f@ },
            DeveloperDataId::ApplicationId(f) => FieldEntry::Known { num: 1, field: f@ },
            DeveloperDataId::ManufacturerId(f) => FieldEntry::Known { num: 2, field: f@ },
            DeveloperDataId::DeveloperDataIndex(f) => FieldEntry::Known { num: 3, field: f@ },
            DeveloperDataId::ApplicationVersion(f) => FieldEntry::Known { num: 4, field: f@ },
            DeveloperDataId::Unknown { data, field_def_num } => FieldEntry::Unknown { num: *field_def_num, data: data@ },
        }
    }

    /// Decodes the byte run `buffer` of field `field_def_num` of this message.
    pub fn decode(buffer: &[u8], field_def_num: u8, endian: Endian) -> (r: Result<Self, Error>)
        ensures
            match r {
                Ok(m) => decode_entry(Self::profile(field_def_num), field_def_num, buffer@, endian)
                    == Ok::<FieldEntry, Error>(m.entry()),
                Err(x) => decode_entry(Self::profile(field_def_num), field_def_num, buffer@, endian)
                    == Err::<FieldEntry, Error>(x),
            },
    {
        match field_def_num {
            0 => match decode_field(buffer, endian, FieldProfile { base: BaseType::Bytes, profile_type: None, scale: None, offset: None, units: None }) {
                Ok(f) => Ok(DeveloperDataId::DeveloperId(f)),
                Err(x) => Err(x),
            },
            1 => match decode_field(buffer, endian, FieldProfile { base: BaseType::Bytes, profile_type: None, scale: None, offset: None, units: None }) {
                Ok(f) => Ok(DeveloperDataId::ApplicationId(f)),
                Err(x) => Err(x),
            },
            2 => match decode_field(buffer, endian, FieldProfile { base: BaseType::Uint16, profile_type: Some(ProfileType::Manufacturer), scale: None, offset: None, units: None }) {
                Ok(f) => Ok(DeveloperDataId::ManufacturerId(f)),
                Err(x) => Err(x),
            },
            3 => match decode_field(buffer, endian, FieldProfile { base: BaseType::Uint8, profile_type: None, scale: None, offset: None, units: None }) {
                Ok(f) => Ok(DeveloperDataId::DeveloperDataIndex(f)),
                Err(x) => Err(x),
            },
            4 => match decode_field(buffer, endian, FieldProfile { base: BaseType::Uint32, profile_type: None, scale: None, offset: None, units: None }) {
                Ok(f) => Ok(DeveloperDataId::ApplicationVersion(f)),
                Err(x) => Err(x),
            },
            _ => Ok(DeveloperDataId::Unknown { data: slice_to_vec(buffer), field_def_num }),
        }
    }
}

#[derive(Debug, Clone)]
pub enum DiveSummary {
    Timestamp(Field),
    ReferenceMesg(Field),
    ReferenceIndex(Field),
    /// 0 if above water
    AvgDepth(Field),
    /// 0 if above water
    MaxDepth(Field),
    /// Time since end of last dive
    SurfaceInterval(Field),
    StartCns(Field),
    EndCns(Field),
    StartN2(Field),
    EndN2(Field),
    O2Toxicity(Field),
    DiveNumber(Field),
    BottomTime(Field),
    Unknown { data: Vec<u8>, field_def_num: u8 },
}

impl DiveSummary {
    /// The profile entry of each field of this message.
    pub open spec fn profile(field_def_num: u8) -> Option<FieldProfile> {
        match field_def_num {
            253 => Some(FieldProfile { base: BaseType::Uint32, profile_type: Some(ProfileType::DateTime), scale: None, offset: None, units: Some("s") }),
            0 => Some(FieldProfile { base: BaseType::Uint16, profile_type: Some(ProfileType::MesgNum), scale: None, offset: None, units: None }),
            1 => Some(FieldProfile { base: BaseType::Uint16, profile_type: Some(ProfileType::MessageIndex), scale: None, offset: None, units: None }),
            2 => Some(FieldProfile { base: BaseType::Uint32, profile_type: None, scale: Some(Scale { num: 1000, den: 1 }), offset: None, units: Some("m") }),
            3 => Some(FieldProfile { base: BaseType::Uint32, profile_type: None, scale: Some(Scale { num: 1000, den: 1 }), offset: None, units: Some("m") }),
            4 => Some(FieldProfile { base: BaseType::Uint32, profile_type: None, scale: Some(Scale { num: 1, den: 1 }), offset: None, units: Some("s") }),
            5 => Some(FieldProfile { base: BaseType::Uint8, profile_type: None, scale: Some(Scale { num: 1, den: 1 }), offset: None, units: Some("percent") }),
            6 => Some(FieldProfile { base: BaseType::Uint8, profile_type: None, scale: Some(Scale { num: 1, den: 1 }), offset: None, units: Some("percent") }),
            7 => Some(FieldProfile { base: BaseType::Uint16, profile_type: None, scale: Some(Scale { num: 1, den: 1 }), offset: None, units: Some("percent") }),
            8 => Some(FieldProfile { base: BaseType::Uint16, profile_type: None, scale: Some(Scale { num: 1, den: 1 }), offset: None, units: Some("percent") }),
            9 => Some(FieldProfile { base: BaseType::Uint16, profile_type: None, scale: None, offset: None, units: Some("OTUs") }),
            10 => Some(FieldProfile { base: BaseType::Uint32, profile_type: None, scale: None, offset: None, units: None }),
            11 => Some(FieldProfile { base: BaseType::Uint32, profile_type: None, scale: Some(Scale { num: 1000, den: 1 }), offset: None, units: Some("s") }),
            _ => None,
        }
    }

    /// The field this value holds.
    pub open spec fn entry(&self) -> FieldEntry {
        match self {
            DiveSummary::Timestamp(f) => FieldEntry::Known { num: 253, field: f@ },
            DiveSummary::ReferenceMesg(f) => FieldEntry::Known { num: 0, field: f@ },
            DiveSummary::ReferenceIndex(f) => FieldEntry::Known { num: 1, field: f@ },
            DiveSummary::AvgDepth(f) => FieldEntry::Known { num: 2, field: f@ },
            DiveSummary::MaxDepth(f) => FieldEntry::Known { num: 3, field: f@ },
            DiveSummary::SurfaceInterval(f) => FieldEntry::Known { num: 4, field: f@ },
            DiveSummary::StartCns(f) => FieldEntry::Known { num: 5, field: f@ },
            DiveSummary::EndCns(f) => FieldEntry::Known { num: 6, field: f@ },
            DiveSummary::StartN2(f) => FieldEntry::Known { num: 7, field: f@ },
            DiveSummary::EndN2(f) => FieldEntry::Known { num: 8, field: f@ },
            DiveSummary::O2Toxicity(f) => FieldEntry::Known { num: 9, field: f@ },
            DiveSummary::DiveNumber(f) => FieldEntry::Known { num: 10, field: f@ },
            DiveSummary::BottomTime(f) => FieldEntry::Known { num: 11, field: f@ },
            DiveSummary::Unknown { data, field_def_num } => FieldEntry::Unknown { num: *field_def_num, data: data@ },
        }
    }

    /// Decodes the byte run `buffer` of field `field_def_num` of this message.
    pub fn decode(buffer: &[u8], field_def_num: u8, endian: Endian) -> (r: Result<Self, Error>)
        ensures
            match r {
                Ok(m) => decode_entry(Self::profile(field_def_num), field_def_num, buffer@, endian)
                    == Ok::<FieldEntry, Error>(m.entry()),
                Err(x) => decode_entry(Self::profile(field_def_num), field_def_num, buffer@, endian)
                    == Err::<FieldEntry, Error>(x),
            },
    {
        match field_def_num {
            253 => match decode_field(buffer, endian, FieldProfile { base: BaseType::Uint32, profile_type: Some(ProfileType::DateTime), scale: None, offset: None, units: Some("s") }) {
                Ok(f) => Ok(DiveSummary::Timestamp(f)),
                Err(x) => Err(x),
            },
            0 => match decode_field(buffer, endian, FieldProfile { base: BaseType::Uint16, profile_type: Some(ProfileType::MesgNum), scale: None, offset: None, units: None }) {
                Ok(f) => Ok(DiveSummary::ReferenceMesg(f)),
                Err(x) => Err(x),
            },
            1 => match decode_field(buffer, endian, FieldProfile { base: BaseType::Uint16, profile_type: Some(ProfileType::MessageIndex), scale: None, offset: None, units: None }) {
                Ok(f) => Ok(DiveSummary::ReferenceIndex(f)),
                Err(x) => Err(x),
            },
            2 => match decode_field(buffer, endian, FieldProfile { base: BaseType::Uint32, profile_type: None, scale: Some(Scale { num: 1000, den: 1 }), offset: None, units: Some("m") }) {
                Ok(f) => Ok(DiveSummary::AvgDepth(f)),
                Err(x) => Err(x),
            },
            3 => match decode_field(buffer, endian, FieldProfile { base: BaseType::Uint32, profile_type: None, scale: Some(Scale { num: 1000, den: 1 }), offset: None, units: Some("m") }) {
                Ok(f) => Ok(DiveSummary::MaxDepth(f)),
                Err(x) => Err(x),
            },
            4 => match decode_field(buffer, endian, FieldProfile { base: BaseType::Uint32, profile_type: None, scale: Some(Scale { num: 1, den: 1 }), offset: None, units: Some("s") }) {
                Ok(f) => Ok(DiveSummary::SurfaceInterval(f)),
                Err(x) => Err(x),
            },
            5 => match decode_field(buffer, endian, FieldProfile { base: BaseType::Uint8, profile_type: None, scale: Some(Scale { num: 1, den: 1 }), offset: None, units: Some("percent") }) {
                Ok(f) => Ok(DiveSummary::StartCns(f)),
                Err(x) => Err(x),
            },
            6 => match decode_field(buffer, endian, FieldProfile { base: BaseType::Uint8, profile_type: None, scale: Some(Scale { num: 1, den: 1 }), offset: None, units: Some("percent") }) {
                Ok(f) => Ok(DiveSummary::EndCns(f)),
                Err(x) => Err(x),
            },
            7 => match decode_field(buffer, endian, FieldProfile { base: BaseType::Uint16, profile_type: None, scale: Some(Scale { num: 1, den: 1 }), offset: None, units: Some("percent") }) {
                Ok(f) => Ok(DiveSummary::StartN2(f)),
                Err(x) => Err(x),
            },
            8 => match decode_field(buffer, endian, FieldProfile { base: BaseType::Uint16, profile_type: None, scale: Some(Scale { num: 1, den: 1 }), offset: None, units: Some("percent") }) {
                Ok(f) => Ok(DiveSummary::EndN2(f)),
                Err(x) => Err(x),
            },
            9 => match decode_field(buffer, endian, FieldProfile { base: BaseType::Uint16, profile_type: None, scale: None, offset: None, units: Some("OTUs") }) {
                Ok(f) => Ok(DiveSummary::O2Toxicity(f)),
                Err(x) => Err(x),
            },
            10 => match decode_field(buffer, endian, FieldProfile { base: BaseType::Uint32, profile_type: None, scale: None, offset: None, units: None }) {
                Ok(f) => Ok(DiveSummary::DiveNumber(f)),
                Err(x) => Err(x),
            },
            11 => match decode_field(buffer, endian, FieldProfile { base: BaseType::Uint32, profile_type: None, scale: Some(Scale { num: 1000, den: 1 }), offset: None, units: Some("s") }) {
                Ok(f) => Ok(DiveSummary::BottomTime(f)),
                Err(x) => Err(x),
            },
            _ => Ok(DiveSummary::Unknown { data: slice_to_vec(buffer), field_def_num }),
        }
    }
}

} // verus!
