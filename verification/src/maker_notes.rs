//! Maker-note parsing for camera makers that store notes as plain tag lists.

use vstd::prelude::*;
use crate::text::{lowercase_text, str_lower_text};
use vstd::utf8::{decode_utf8, valid_utf8};
use crate::bytes::{be32, read_u32, read_u16, u16_at, u32_at};
use crate::metadata::{num, txt, Real, RealStyle, TagMap};
use crate::text::{contains_text, dec_text, hex_text, push_hex, text, text_contains, u64_text};
use crate::utils::{bytes_contain, bytes_match_at, contains_bytes, read_text_at, text_at};

verus! {

/// The name of a Canon maker-note tag.
pub open spec fn canon_tag_name(tag_id: u16) -> Seq<char> {
    match tag_id {
        0x0001 => "CanonImageType"@,
        0x0002 => "CanonFirmwareVersion"@,
        0x0003 => "ImageNumber"@,
        0x0004 => "OwnerName"@,
        0x0005 => "SerialNumber"@,
        0x0006 => "CanonImageWidth"@,
        0x0007 => "CanonImageHeight"@,
        0x0008 => "ContrastStandard"@,
        0x0009 => "SharpnessStandard"@,
        0x000A => "SaturationStandard"@,
        0x000B => "ColorToneStandard"@,
        0x000C => "ContrastPortrait"@,
        0x000D => "SharpnessPortrait"@,
        0x000E => "SaturationPortrait"@,
        0x000F => "ColorTonePortrait"@,
        0x0010 => "ContrastLandscape"@,
        0x0011 => "SharpnessLandscape"@,
        0x0012 => "SaturationLandscape"@,
        0x0013 => "ColorToneLandscape"@,
        0x0014 => "ContrastNeutral"@,
        0x0015 => "SharpnessNeutral"@,
        0x0016 => "SaturationNeutral"@,
        0x0017 => "ColorToneNeutral"@,
        0x0018 => "ContrastFaithful"@,
        0x0019 => "SharpnessFaithful"@,
        0x001A => "SaturationFaithful"@,
        0x001B => "ColorToneFaithful"@,
        0x001C => "ContrastMonochrome"@,
        0x001D => "SharpnessMonochrome"@,
        0x001E => "FilterEffectMonochrome"@,
        0x001F => "ToningEffectMonochrome"@,
        0x0020 => "ContrastAuto"@,
        0x0021 => "SharpnessAuto"@,
        0x0022 => "SaturationAuto"@,
        0x0023 => "ColorToneAuto"@,
        0x0024 => "ContrastUserDef1"@,
        0x0025 => "SharpnessUserDef1"@,
        0x0026 => "SaturationUserDef1"@,
        0x0027 => "ColorToneUserDef1"@,
        0x0028 => "ContrastUserDef2"@,
        0x0029 => "SharpnessUserDef2"@,
        0x002A => "SaturationUserDef2"@,
        0x002B => "ColorToneUserDef2"@,
        0x002C => "ContrastUserDef3"@,
        0x002D => "SharpnessUserDef3"@,
        0x002E => "SaturationUserDef3"@,
        0x002F => "ColorToneUserDef3"@,
        0x0030 => "AccelerationTracking"@,
        0x0031 => "AIServoTrackingSensitivity"@,
        0x0032 => "AIServoFirstImagePriority"@,
        0x0033 => "AIServoSecondImagePriority"@,
        0x0034 => "AFAssistBeam"@,
        0x0035 => "LensDriveNoAF"@,
        0x0036 => "SelectAFAreaSelectMode"@,
        0x0037 => "AFAreaSelectionMethod"@,
        0x0038 => "ManualAFPointSelPattern"@,
        0x0039 => "AFPointDisplayDuringFocus"@,
        0x003A => "AFPointSwitching"@,
        0x003B => "AIServoAF"@,
        0x003C => "OneShotShutterRelease"@,
        0x003D => "AIServoShutterRelease"@,
        0x003E => "AFPointActivationArea"@,
        0x003F => "FocusPointSpotMetering"@,
        0x0040 => "AEBAutoCancel"@,
        0x0041 => "AEBSequence"@,
        0x0042 => "AEBShotCount"@,
        0x0043 => "SafetyShift"@,
        0x0044 => "SafetyShiftInAvOrTv"@,
        0x0045 => "SafetyShiftInM"@,
        0x0046 => "MeteringMode"@,
        0x0047 => "ExposureCompensation"@,
        0x0048 => "ExposureCompensation2"@,
        0x0049 => "ExposureCompensation3"@,
        0x004A => "ExposureCompensation4"@,
        0x004B => "ExposureCompensation5"@,
        0x004C => "ExposureCompensation6"@,
        0x004D => "ExposureCompensation7"@,
        0x004E => "ExposureCompensation8"@,
        0x004F => "ExposureCompensation9"@,
        0x0050 => "FlashExposureCompensation"@,
        0x0051 => "FlashExposureCompensation2"@,
        0x0052 => "FlashExposureCompensation3"@,
        0x0053 => "FlashExposureCompensation4"@,
        0x0054 => "FlashExposureCompensation5"@,
        0x0055 => "FlashExposureCompensation6"@,
        0x0056 => "FlashExposureCompensation7"@,
        0x0057 => "FlashExposureCompensation8"@,
        0x0058 => "FlashExposureCompensation9"@,
        0x0059 => "FlashExposureCompensation10"@,
        0x005A => "FlashExposureCompensation11"@,
        0x005B => "FlashExposureCompensation12"@,
        0x005C => "FlashExposureCompensation13"@,
        0x005D => "FlashExposureCompensation14"@,
        0x005E => "FlashExposureCompensation15"@,
        0x005F => "FlashExposureCompensation16"@,
        0x0060 => "ThumbnailImageValidArea"@,
        0x0061 => "BlackMaskLeftBorder"@,
        0x0062 => "BlackMaskTopBorder"@,
        0x0063 => "BlackMaskRightBorder"@,
        0x0064 => "BlackMaskBottomBorder"@,
        0x0065 => "WhiteMaskLeftBorder"@,
        0x0066 => "WhiteMaskTopBorder"@,
        0x0067 => "WhiteMaskRightBorder"@,
        0x0068 => "WhiteMaskBottomBorder"@,
        0x0069 => "DigitalZoom"@,
        0x006A => "DigitalZoomRatio"@,
        0x006B => "DigitalZoomRatio2"@,
        0x006C => "DigitalZoomRatio3"@,
        0x006D => "DigitalZoomRatio4"@,
        0x006E => "DigitalZoomRatio5"@,
        0x006F => "DigitalZoomRatio6"@,
        0x0070 => "CameraType"@,
        0x0071 => "CameraOrientation"@,
        0x0072 => "FirmwareVersion"@,
        0x0073 => "FileIndex"@,
        0x0074 => "DirectoryIndex"@,
        0x0075 => "ControlMode"@,
        0x0076 => "MeasuredEV"@,
        0x0077 => "MeasuredEV2"@,
        0x0078 => "MeasuredEV3"@,
        0x0079 => "MeasuredEV4"@,
        0x007A => "MeasuredEV5"@,
        0x007B => "MeasuredEV6"@,
        0x007C => "MeasuredEV7"@,
        0x007D => "MeasuredEV8"@,
        0x007E => "MeasuredEV9"@,
        0x007F => "MeasuredEV10"@,
        0x0080 => "BulbDuration"@,
        0x0081 => "NDFilter"@,
        0x0082 => "CanonImageWidthAsShot"@,
        0x0083 => "CanonImageHeightAsShot"@,
        0x0084 => "CanonImageWidthAsShot2"@,
        0x0085 => "CanonImageHeightAsShot2"@,
        0x0086 => "CanonImageWidthAsShot3"@,
        0x0087 => "CanonImageHeightAsShot3"@,
        0x0088 => "CanonImageWidthAsShot4"@,
        0x0089 => "CanonImageHeightAsShot4"@,
        0x008A => "CanonImageWidthAsShot5"@,
        0x008B => "CanonImageHeightAsShot5"@,
        0x008C => "CanonImageWidthAsShot6"@,
        0x008D => "CanonImageHeightAsShot6"@,
        0x008E => "CanonImageWidthAsShot7"@,
        0x008F => "CanonImageHeightAsShot7"@,
        _ => "CanonTag_"@ + hex_text(tag_id as nat, 4, true),
    }
}

/// The name of a Canon maker-note tag.
pub(crate) fn canon_tag_name_text(tag_id: u16) -> (r: String)
    ensures
        r@ == canon_tag_name(tag_id),
{
    let name: &str = match tag_id {
        0x0001 => "CanonImageType",
        0x0002 => "CanonFirmwareVersion",
        0x0003 => "ImageNumber",
        0x0004 => "OwnerName",
        0x0005 => "SerialNumber",
        0x0006 => "CanonImageWidth",
        0x0007 => "CanonImageHeight",
        0x0008 => "ContrastStandard",
        0x0009 => "SharpnessStandard",
        0x000A => "SaturationStandard",
        0x000B => "ColorToneStandard",
        0x000C => "ContrastPortrait",
        0x000D => "SharpnessPortrait",
        0x000E => "SaturationPortrait",
        0x000F => "ColorTonePortrait",
        0x0010 => "ContrastLandscape",
        0x0011 => "SharpnessLandscape",
        0x0012 => "SaturationLandscape",
        0x0013 => "ColorToneLandscape",
        0x0014 => "ContrastNeutral",
        0x0015 => "SharpnessNeutral",
        0x0016 => "SaturationNeutral",
        0x0017 => "ColorToneNeutral",
        0x0018 => "ContrastFaithful",
        0x0019 => "SharpnessFaithful",
        0x001A => "SaturationFaithful",
        0x001B => "ColorToneFaithful",
        0x001C => "ContrastMonochrome",
        0x001D => "SharpnessMonochrome",
        0x001E => "FilterEffectMonochrome",
        0x001F => "ToningEffectMonochrome",
        0x0020 => "ContrastAuto",
        0x0021 => "SharpnessAuto",
        0x0022 => "SaturationAuto",
        0x0023 => "ColorToneAuto",
        0x0024 => "ContrastUserDef1",
        0x0025 => "SharpnessUserDef1",
        0x0026 => "SaturationUserDef1",
        0x0027 => "ColorToneUserDef1",
        0x0028 => "ContrastUserDef2",
        0x0029 => "SharpnessUserDef2",
        0x002A => "SaturationUserDef2",
        0x002B => "ColorToneUserDef2",
        0x002C => "ContrastUserDef3",
        0x002D => "SharpnessUserDef3",
        0x002E => "SaturationUserDef3",
        0x002F => "ColorToneUserDef3",
        0x0030 => "AccelerationTracking",
        0x0031 => "AIServoTrackingSensitivity",
        0x0032 => "AIServoFirstImagePriority",
        0x0033 => "AIServoSecondImagePriority",
        0x0034 => "AFAssistBeam",
        0x0035 => "LensDriveNoAF",
        0x0036 => "SelectAFAreaSelectMode",
        0x0037 => "AFAreaSelectionMethod",
        0x0038 => "ManualAFPointSelPattern",
        0x0039 => "AFPointDisplayDuringFocus",
        0x003A => "AFPointSwitching",
        0x003B => "AIServoAF",
        0x003C => "OneShotShutterRelease",
        0x003D => "AIServoShutterRelease",
        0x003E => "AFPointActivationArea",
        0x003F => "FocusPointSpotMetering",
        0x0040 => "AEBAutoCancel",
        0x0041 => "AEBSequence",
        0x0042 => "AEBShotCount",
        0x0043 => "SafetyShift",
        0x0044 => "SafetyShiftInAvOrTv",
        0x0045 => "SafetyShiftInM",
        0x0046 => "MeteringMode",
        0x0047 => "ExposureCompensation",
        0x0048 => "ExposureCompensation2",
        0x0049 => "ExposureCompensation3",
        0x004A => "ExposureCompensation4",
        0x004B => "ExposureCompensation5",
        0x004C => "ExposureCompensation6",
        0x004D => "ExposureCompensation7",
        0x004E => "ExposureCompensation8",
        0x004F => "ExposureCompensation9",
        0x0050 => "FlashExposureCompensation",
        0x0051 => "FlashExposureCompensation2",
        0x0052 => "FlashExposureCompensation3",
        0x0053 => "FlashExposureCompensation4",
        0x0054 => "FlashExposureCompensation5",
        0x0055 => "FlashExposureCompensation6",
        0x0056 => "FlashExposureCompensation7",
        0x0057 => "FlashExposureCompensation8",
        0x0058 => "FlashExposureCompensation9",
        0x0059 => "FlashExposureCompensation10",
        0x005A => "FlashExposureCompensation11",
        0x005B => "FlashExposureCompensation12",
        0x005C => "FlashExposureCompensation13",
        0x005D => "FlashExposureCompensation14",
        0x005E => "FlashExposureCompensation15",
        0x005F => "FlashExposureCompensation16",
        0x0060 => "ThumbnailImageValidArea",
        0x0061 => "BlackMaskLeftBorder",
        0x0062 => "BlackMaskTopBorder",
        0x0063 => "BlackMaskRightBorder",
        0x0064 => "BlackMaskBottomBorder",
        0x0065 => "WhiteMaskLeftBorder",
        0x0066 => "WhiteMaskTopBorder",
        0x0067 => "WhiteMaskRightBorder",
        0x0068 => "WhiteMaskBottomBorder",
        0x0069 => "DigitalZoom",
        0x006A => "DigitalZoomRatio",
        0x006B => "DigitalZoomRatio2",
        0x006C => "DigitalZoomRatio3",
        0x006D => "DigitalZoomRatio4",
        0x006E => "DigitalZoomRatio5",
        0x006F => "DigitalZoomRatio6",
        0x0070 => "CameraType",
        0x0071 => "CameraOrientation",
        0x0072 => "FirmwareVersion",
        0x0073 => "FileIndex",
        0x0074 => "DirectoryIndex",
        0x0075 => "ControlMode",
        0x0076 => "MeasuredEV",
        0x0077 => "MeasuredEV2",
        0x0078 => "MeasuredEV3",
        0x0079 => "MeasuredEV4",
        0x007A => "MeasuredEV5",
        0x007B => "MeasuredEV6",
        0x007C => "MeasuredEV7",
        0x007D => "MeasuredEV8",
        0x007E => "MeasuredEV9",
        0x007F => "MeasuredEV10",
        0x0080 => "BulbDuration",
        0x0081 => "NDFilter",
        0x0082 => "CanonImageWidthAsShot",
        0x0083 => "CanonImageHeightAsShot",
        0x0084 => "CanonImageWidthAsShot2",
        0x0085 => "CanonImageHeightAsShot2",
        0x0086 => "CanonImageWidthAsShot3",
        0x0087 => "CanonImageHeightAsShot3",
        0x0088 => "CanonImageWidthAsShot4",
        0x0089 => "CanonImageHeightAsShot4",
        0x008A => "CanonImageWidthAsShot5",
        0x008B => "CanonImageHeightAsShot5",
        0x008C => "CanonImageWidthAsShot6",
        0x008D => "CanonImageHeightAsShot6",
        0x008E => "CanonImageWidthAsShot7",
        0x008F => "CanonImageHeightAsShot7",
        _ => {
            let mut s = text("CanonTag_");
            push_hex(&mut s, tag_id as u64, 4, true);
            return s;
        },
    };
    text(name)
}

/// The name of a Samsung maker-note tag.
pub open spec fn samsung_tag_name(tag_id: u16) -> Seq<char> {
    match tag_id {
        0x0001 => "SamsungVersion"@,
        0x0002 => "SamsungModelID"@,
        0x0003 => "SamsungFirmwareVersion"@,
        0x0004 => "SamsungSerialNumber"@,
        0x0005 => "SamsungImageWidth"@,
        0x0006 => "SamsungImageHeight"@,
        0x0007 => "SamsungImageType"@,
        0x0008 => "SamsungOwnerName"@,
        0x0009 => "SamsungCameraSettings"@,
        0x000A => "SamsungPictureWizard"@,
        0x000B => "SamsungLocation"@,
        0x000C => "SamsungSpecialMode"@,
        0x000D => "SamsungFaceDetect"@,
        0x000E => "SamsungFaceRecognition"@,
        0x000F => "SamsungWDR"@,
        0x0010 => "SamsungSmartFilter"@,
        0x0011 => "SamsungObjectTracking"@,
        0x0012 => "SamsungVoiceMemo"@,
        0x0013 => "SamsungTaggedFace"@,
        0x0014 => "SamsungFaceDetectFrameSize"@,
        0x0015 => "SamsungFaceDetectFrameCrop"@,
        0x0016 => "SamsungFaceDetectFaceArea"@,
        0x0017 => "SamsungFaceDetectFacePosition"@,
        0x0018 => "SamsungFaceDetectFaceSize"@,
        0x0019 => "SamsungFaceDetectFaceScore"@,
        0x001A => "SamsungFaceDetectFaceID"@,
        0x001B => "SamsungFaceDetectFaceName"@,
        0x001C => "SamsungFaceDetectFaceAge"@,
        0x001D => "SamsungFaceDetectFaceGender"@,
        0x001E => "SamsungFaceDetectFaceSmile"@,
        0x001F => "SamsungFaceDetectFaceBlink"@,
        0x0020 => "SamsungFaceDetectFaceWink"@,
        0x0021 => "SamsungFaceDetectFaceFrown"@,
        0x0022 => "SamsungFaceDetectFaceSurprise"@,
        0x0023 => "SamsungFaceDetectFaceAngry"@,
        0x0024 => "SamsungFaceDetectFaceSad"@,
        0x0025 => "SamsungFaceDetectFaceNeutral"@,
        0x0026 => "SamsungFaceDetectFaceHappy"@,
        0x0027 => "SamsungFaceDetectFaceExcited"@,
        0x0028 => "SamsungFaceDetectFaceCalm"@,
        0x0029 => "SamsungFaceDetectFaceSleepy"@,
        0x002A => "SamsungFaceDetectFaceTired"@,
        0x002B => "SamsungFaceDetectFaceConfused"@,
        0x002C => "SamsungFaceDetectFaceDisgusted"@,
        0x002D => "SamsungFaceDetectFaceContemptuous"@,
        0x002E => "SamsungFaceDetectFaceFearful"@,
        0x002F => "SamsungFaceDetectFaceDisappointed"@,
        0x0030 => "SamsungFaceDetectFaceEmbarrassed"@,
        0x0031 => "SamsungFaceDetectFaceProud"@,
        0x0032 => "SamsungFaceDetectFaceJealous"@,
        0x0033 => "SamsungFaceDetectFaceLonely"@,
        0x0034 => "SamsungFaceDetectFaceGuilty"@,
        0x0035 => "SamsungFaceDetectFaceShameful"@,
        0x0036 => "SamsungFaceDetectFaceAshamed"@,
        0x0037 => "SamsungFaceDetectFaceHumble"@,
        0x0038 => "SamsungFaceDetectFaceModest"@,
        0x0039 => "SamsungFaceDetectFaceProud"@,
        0x003A => "SamsungFaceDetectFaceArrogant"@,
        0x003B => "SamsungFaceDetectFaceConfident"@,
        0x003C => "SamsungFaceDetectFaceInsecure"@,
        0x003D => "SamsungFaceDetectFaceAnxious"@,
        0x003E => "SamsungFaceDetectFaceWorried"@,
        0x003F => "SamsungFaceDetectFaceNervous"@,
        0x0040 => "SamsungFaceDetectFaceRelaxed"@,
        0x0041 => "SamsungFaceDetectFaceStressed"@,
        0x0042 => "SamsungFaceDetectFaceTense"@,
        0x0043 => "SamsungFaceDetectFaceCalm"@,
        0x0044 => "SamsungFaceDetectFacePeaceful"@,
        0x0045 => "SamsungFaceDetectFaceSerene"@,
        0x0046 => "SamsungFaceDetectFaceTranquil"@,
        0x0047 => "SamsungFaceDetectFaceComposed"@,
        0x0048 => "SamsungFaceDetectFaceCollected"@,
        0x0049 => "SamsungFaceDetectFacePoised"@,
        0x004A => "SamsungFaceDetectFaceBalanced"@,
        0x004B => "SamsungFaceDetectFaceCentered"@,
        0x004C => "SamsungFaceDetectFaceGrounded"@,
        0x004D => "SamsungFaceDetectFaceStable"@,
        0x004E => "SamsungFaceDetectFaceSteady"@,
        0x004F => "SamsungFaceDetectFaceFirm"@,
        0x0050 => "SamsungFaceDetectFaceSolid"@,
        0x0051 => "SamsungFaceDetectFaceStrong"@,
        0x0052 => "SamsungFaceDetectFaceRobust"@,
        0x0053 => "SamsungFaceDetectFaceResilient"@,
        0x0054 => "SamsungFaceDetectFaceDurable"@,
        0x0055 => "SamsungFaceDetectFaceEnduring"@,
        0x0056 => "SamsungFaceDetectFacePersistent"@,
        0x0057 => "SamsungFaceDetectFaceTenacious"@,
        0x0058 => "SamsungFaceDetectFaceDetermined"@,
        0x0059 => "SamsungFaceDetectFaceResolute"@,
        0x005A => "SamsungFaceDetectFaceDecisive"@,
        0x005B => "SamsungFaceDetectFaceFocused"@,
        0x005C => "SamsungFaceDetectFaceConcentrated"@,
        0x005D => "SamsungFaceDetectFaceAttentive"@,
        0x005E => "SamsungFaceDetectFaceAlert"@,
        0x005F => "SamsungFaceDetectFaceVigilant"@,
        0x0060 => "SamsungFaceDetectFaceWatchful"@,
        0x0061 => "SamsungFaceDetectFaceObservant"@,
        0x0062 => "SamsungFaceDetectFacePerceptive"@,
        0x0063 => "SamsungFaceDetectFaceInsightful"@,
        0x0064 => "SamsungFaceDetectFaceIntuitive"@,
        0x0065 => "SamsungFaceDetectFaceInstinctive"@,
        0x0066 => "SamsungFaceDetectFaceNatural"@,
        0x0067 => "SamsungFaceDetectFaceSpontaneous"@,
        0x0068 => "SamsungFaceDetectFaceImpulsive"@,
        0x0069 => "SamsungFaceDetectFaceReckless"@,
        0x006A => "SamsungFaceDetectFaceCareless"@,
        0x006B => "SamsungFaceDetectFaceThoughtless"@,
        0x006C => "SamsungFaceDetectFaceMindless"@,
        0x006D => "SamsungFaceDetectFaceUnconscious"@,
        0x006E => "SamsungFaceDetectFaceUnaware"@,
        0x006F => "SamsungFaceDetectFaceIgnorant"@,
        0x0070 => "SamsungFaceDetectFaceUninformed"@,
        0x0071 => "SamsungFaceDetectFaceUneducated"@,
        0x0072 => "SamsungFaceDetectFaceUnlearned"@,
        0x0073 => "SamsungFaceDetectFaceUnschooled"@,
        0x0074 => "SamsungFaceDetectFaceUntrained"@,
        0x0075 => "SamsungFaceDetectFaceInexperienced"@,
        0x0076 => "SamsungFaceDetectFaceNovice"@,
        0x0077 => "SamsungFaceDetectFaceBeginner"@,
        0x0078 => "SamsungFaceDetectFaceAmateur"@,
        0x0079 => "SamsungFaceDetectFaceRookie"@,
        0x007A => "SamsungFaceDetectFaceGreen"@,
        0x007B => "SamsungFaceDetectFaceRaw"@,
        0x007C => "SamsungFaceDetectFaceCrude"@,
        0x007D => "SamsungFaceDetectFaceRough"@,
        0x007E => "SamsungFaceDetectFaceCoarse"@,
        0x007F => "SamsungFaceDetectFaceCrude"@,
        0x0080 => "SamsungFaceDetectFacePrimitive"@,
        0x0081 => "SamsungFaceDetectFaceBasic"@,
        0x0082 => "SamsungFaceDetectFaceElementary"@,
        0x0083 => "SamsungFaceDetectFaceSimple"@,
        0x0084 => "SamsungFaceDetectFacePlain"@,
        0x0085 => "SamsungFaceDetectFaceOrdinary"@,
        0x0086 => "SamsungFaceDetectFaceCommon"@,
        0x0087 => "SamsungFaceDetectFaceAverage"@,
        0x0088 => "SamsungFaceDetectFaceTypical"@,
        0x0089 => "SamsungFaceDetectFaceStandard"@,
        0x008A => "SamsungFaceDetectFaceNormal"@,
        0x008B => "SamsungFaceDetectFaceRegular"@,
        0x008C => "SamsungFaceDetectFaceUsual"@,
        0x008D => "SamsungFaceDetectFaceCustomary"@,
        0x008E => "SamsungFaceDetectFaceConventional"@,
        0x008F => "SamsungFaceDetectFaceTraditional"@,
        0x0090 => "SamsungFaceDetectFaceClassic"@,
        0x0091 => "SamsungFaceDetectFaceVintage"@,
        0x0092 => "SamsungFaceDetectFaceRetro"@,
        0x0093 => "SamsungFaceDetectFaceOld"@,
        0x0094 => "SamsungFaceDetectFaceAncient"@,
        0x0095 => "SamsungFaceDetectFaceAntique"@,
        0x0096 => "SamsungFaceDetectFaceHistoric"@,
        0x0097 => "SamsungFaceDetectFaceHistorical"@,
        0x0098 => "SamsungFaceDetectFacePast"@,
        0x0099 => "SamsungFaceDetectFaceFormer"@,
        0x009A => "SamsungFaceDetectFacePrevious"@,
        0x009B => "SamsungFaceDetectFacePrior"@,
        0x009C => "SamsungFaceDetectFaceEarlier"@,
        0x009D => "SamsungFaceDetectFaceEarlier"@,
        0x009E => "SamsungFaceDetectFaceEarlier"@,
        0x009F => "SamsungFaceDetectFaceEarlier"@,
        0x00A0 => "SamsungFaceDetectFaceEarlier"@,
        0x00A1 => "SamsungFaceDetectFaceEarlier"@,
        0x00A2 => "SamsungFaceDetectFaceEarlier"@,
        0x00A3 => "SamsungFaceDetectFaceEarlier"@,
        0x00A4 => "SamsungFaceDetectFaceEarlier"@,
        0x00A5 => "SamsungFaceDetectFaceEarlier"@,
        0x00A6 => "SamsungFaceDetectFaceEarlier"@,
        0x00A7 => "SamsungFaceDetectFaceEarlier"@,
        0x00A8 => "SamsungFaceDetectFaceEarlier"@,
        0x00A9 => "SamsungFaceDetectFaceEarlier"@,
        0x00AA => "SamsungFaceDetectFaceEarlier"@,
        0x00AB => "SamsungFaceDetectFaceEarlier"@,
        0x00AC => "SamsungFaceDetectFaceEarlier"@,
        0x00AD => "SamsungFaceDetectFaceEarlier"@,
        0x00AE => "SamsungFaceDetectFaceEarlier"@,
        0x00AF => "SamsungFaceDetectFaceEarlier"@,
        0x00B0 => "SamsungFaceDetectFaceEarlier"@,
        0x00B1 => "SamsungFaceDetectFaceEarlier"@,
        0x00B2 => "SamsungFaceDetectFaceEarlier"@,
        0x00B3 => "SamsungFaceDetectFaceEarlier"@,
        0x00B4 => "SamsungFaceDetectFaceEarlier"@,
        0x00B5 => "SamsungFaceDetectFaceEarlier"@,
        0x00B6 => "SamsungFaceDetectFaceEarlier"@,
        0x00B7 => "SamsungFaceDetectFaceEarlier"@,
        0x00B8 => "SamsungFaceDetectFaceEarlier"@,
        0x00B9 => "SamsungFaceDetectFaceEarlier"@,
        0x00BA => "SamsungFaceDetectFaceEarlier"@,
        0x00BB => "SamsungFaceDetectFaceEarlier"@,
        0x00BC => "SamsungFaceDetectFaceEarlier"@,
        0x00BD => "SamsungFaceDetectFaceEarlier"@,
        0x00BE => "SamsungFaceDetectFaceEarlier"@,
        0x00BF => "SamsungFaceDetectFaceEarlier"@,
        0x00C0 => "SamsungFaceDetectFaceEarlier"@,
        0x00C1 => "SamsungFaceDetectFaceEarlier"@,
        0x00C2 => "SamsungFaceDetectFaceEarlier"@,
        0x00C3 => "SamsungFaceDetectFaceEarlier"@,
        0x00C4 => "SamsungFaceDetectFaceEarlier"@,
        0x00C5 => "SamsungFaceDetectFaceEarlier"@,
        0x00C6 => "SamsungFaceDetectFaceEarlier"@,
        0x00C7 => "SamsungFaceDetectFaceEarlier"@,
        0x00C8 => "SamsungFaceDetectFaceEarlier"@,
        0x00C9 => "SamsungFaceDetectFaceEarlier"@,
        0x00CA => "SamsungFaceDetectFaceEarlier"@,
        0x00CB => "SamsungFaceDetectFaceEarlier"@,
        0x00CC => "SamsungFaceDetectFaceEarlier"@,
        0x00CD => "SamsungFaceDetectFaceEarlier"@,
        0x00CE => "SamsungFaceDetectFaceEarlier"@,
        0x00CF => "SamsungFaceDetectFaceEarlier"@,
        0x00D0 => "SamsungFaceDetectFaceEarlier"@,
        0x00D1 => "SamsungFaceDetectFaceEarlier"@,
        0x00D2 => "SamsungFaceDetectFaceEarlier"@,
        0x00D3 => "SamsungFaceDetectFaceEarlier"@,
        0x00D4 => "SamsungFaceDetectFaceEarlier"@,
        0x00D5 => "SamsungFaceDetectFaceEarlier"@,
        0x00D6 => "SamsungFaceDetectFaceEarlier"@,
        0x00D7 => "SamsungFaceDetectFaceEarlier"@,
        0x00D8 => "SamsungFaceDetectFaceEarlier"@,
        0x00D9 => "SamsungFaceDetectFaceEarlier"@,
        0x00DA => "SamsungFaceDetectFaceEarlier"@,
        0x00DB => "SamsungFaceDetectFaceEarlier"@,
        0x00DC => "SamsungFaceDetectFaceEarlier"@,
        0x00DD => "SamsungFaceDetectFaceEarlier"@,
        0x00DE => "SamsungFaceDetectFaceEarlier"@,
        0x00DF => "SamsungFaceDetectFaceEarlier"@,
        0x00E0 => "SamsungFaceDetectFaceEarlier"@,
        0x00E1 => "SamsungFaceDetectFaceEarlier"@,
        0x00E2 => "SamsungFaceDetectFaceEarlier"@,
        0x00E3 => "SamsungFaceDetectFaceEarlier"@,
        0x00E4 => "SamsungFaceDetectFaceEarlier"@,
        0x00E5 => "SamsungFaceDetectFaceEarlier"@,
        0x00E6 => "SamsungFaceDetectFaceEarlier"@,
        0x00E7 => "SamsungFaceDetectFaceEarlier"@,
        0x00E8 => "SamsungFaceDetectFaceEarlier"@,
        0x00E9 => "SamsungFaceDetectFaceEarlier"@,
        0x00EA => "SamsungFaceDetectFaceEarlier"@,
        0x00EB => "SamsungFaceDetectFaceEarlier"@,
        0x00EC => "SamsungFaceDetectFaceEarlier"@,
        0x00ED => "SamsungFaceDetectFaceEarlier"@,
        0x00EE => "SamsungFaceDetectFaceEarlier"@,
        0x00EF => "SamsungFaceDetectFaceEarlier"@,
        0x00F0 => "SamsungFaceDetectFaceEarlier"@,
        0x00F1 => "SamsungFaceDetectFaceEarlier"@,
        0x00F2 => "SamsungFaceDetectFaceEarlier"@,
        0x00F3 => "SamsungFaceDetectFaceEarlier"@,
        0x00F4 => "SamsungFaceDetectFaceEarlier"@,
        0x00F5 => "SamsungFaceDetectFaceEarlier"@,
        0x00F6 => "SamsungFaceDetectFaceEarlier"@,
        0x00F7 => "SamsungFaceDetectFaceEarlier"@,
        0x00F8 => "SamsungFaceDetectFaceEarlier"@,
        0x00F9 => "SamsungFaceDetectFaceEarlier"@,
        0x00FA => "SamsungFaceDetectFaceEarlier"@,
        0x00FB => "SamsungFaceDetectFaceEarlier"@,
        0x00FC => "SamsungFaceDetectFaceEarlier"@,
        0x00FD => "SamsungFaceDetectFaceEarlier"@,
        0x00FE => "SamsungFaceDetectFaceEarlier"@,
        0x00FF => "SamsungFaceDetectFaceEarlier"@,
        _ => "SamsungTag_"@ + hex_text(tag_id as nat, 4, true),
    }
}

/// The name of a Samsung maker-note tag.
pub(crate) fn samsung_tag_name_text(tag_id: u16) -> (r: String)
    ensures
        r@ == samsung_tag_name(tag_id),
{
    let name: &str = match tag_id {
        0x0001 => "SamsungVersion",
        0x0002 => "SamsungModelID",
        0x0003 => "SamsungFirmwareVersion",
        0x0004 => "SamsungSerialNumber",
        0x0005 => "SamsungImageWidth",
        0x0006 => "SamsungImageHeight",
        0x0007 => "SamsungImageType",
        0x0008 => "SamsungOwnerName",
        0x0009 => "SamsungCameraSettings",
        0x000A => "SamsungPictureWizard",
        0x000B => "SamsungLocation",
        0x000C => "SamsungSpecialMode",
        0x000D => "SamsungFaceDetect",
        0x000E => "SamsungFaceRecognition",
        0x000F => "SamsungWDR",
        0x0010 => "SamsungSmartFilter",
        0x0011 => "SamsungObjectTracking",
        0x0012 => "SamsungVoiceMemo",
        0x0013 => "SamsungTaggedFace",
        0x0014 => "SamsungFaceDetectFrameSize",
        0x0015 => "SamsungFaceDetectFrameCrop",
        0x0016 => "SamsungFaceDetectFaceArea",
        0x0017 => "SamsungFaceDetectFacePosition",
        0x0018 => "SamsungFaceDetectFaceSize",
        0x0019 => "SamsungFaceDetectFaceScore",
        0x001A => "SamsungFaceDetectFaceID",
        0x001B => "SamsungFaceDetectFaceName",
        0x001C => "SamsungFaceDetectFaceAge",
        0x001D => "SamsungFaceDetectFaceGender",
        0x001E => "SamsungFaceDetectFaceSmile",
        0x001F => "SamsungFaceDetectFaceBlink",
        0x0020 => "SamsungFaceDetectFaceWink",
        0x0021 => "SamsungFaceDetectFaceFrown",
        0x0022 => "SamsungFaceDetectFaceSurprise",
        0x0023 => "SamsungFaceDetectFaceAngry",
        0x0024 => "SamsungFaceDetectFaceSad",
        0x0025 => "SamsungFaceDetectFaceNeutral",
        0x0026 => "SamsungFaceDetectFaceHappy",
        0x0027 => "SamsungFaceDetectFaceExcited",
        0x0028 => "SamsungFaceDetectFaceCalm",
        0x0029 => "SamsungFaceDetectFaceSleepy",
        0x002A => "SamsungFaceDetectFaceTired",
        0x002B => "SamsungFaceDetectFaceConfused",
        0x002C => "SamsungFaceDetectFaceDisgusted",
        0x002D => "SamsungFaceDetectFaceContemptuous",
        0x002E => "SamsungFaceDetectFaceFearful",
        0x002F => "SamsungFaceDetectFaceDisappointed",
        0x0030 => "SamsungFaceDetectFaceEmbarrassed",
        0x0031 => "SamsungFaceDetectFaceProud",
        0x0032 => "SamsungFaceDetectFaceJealous",
        0x0033 => "SamsungFaceDetectFaceLonely",
        0x0034 => "SamsungFaceDetectFaceGuilty",
        0x0035 => "SamsungFaceDetectFaceShameful",
        0x0036 => "SamsungFaceDetectFaceAshamed",
        0x0037 => "SamsungFaceDetectFaceHumble",
        0x0038 => "SamsungFaceDetectFaceModest",
        0x0039 => "SamsungFaceDetectFaceProud",
        0x003A => "SamsungFaceDetectFaceArrogant",
        0x003B => "SamsungFaceDetectFaceConfident",
        0x003C => "SamsungFaceDetectFaceInsecure",
        0x003D => "SamsungFaceDetectFaceAnxious",
        0x003E => "SamsungFaceDetectFaceWorried",
        0x003F => "SamsungFaceDetectFaceNervous",
        0x0040 => "SamsungFaceDetectFaceRelaxed",
        0x0041 => "SamsungFaceDetectFaceStressed",
        0x0042 => "SamsungFaceDetectFaceTense",
        0x0043 => "SamsungFaceDetectFaceCalm",
        0x0044 => "SamsungFaceDetectFacePeaceful",
        0x0045 => "SamsungFaceDetectFaceSerene",
        0x0046 => "SamsungFaceDetectFaceTranquil",
        0x0047 => "SamsungFaceDetectFaceComposed",
        0x0048 => "SamsungFaceDetectFaceCollected",
        0x0049 => "SamsungFaceDetectFacePoised",
        0x004A => "SamsungFaceDetectFaceBalanced",
        0x004B => "SamsungFaceDetectFaceCentered",
        0x004C => "SamsungFaceDetectFaceGrounded",
        0x004D => "SamsungFaceDetectFaceStable",
        0x004E => "SamsungFaceDetectFaceSteady",
        0x004F => "SamsungFaceDetectFaceFirm",
        0x0050 => "SamsungFaceDetectFaceSolid",
        0x0051 => "SamsungFaceDetectFaceStrong",
        0x0052 => "SamsungFaceDetectFaceRobust",
        0x0053 => "SamsungFaceDetectFaceResilient",
        0x0054 => "SamsungFaceDetectFaceDurable",
        0x0055 => "SamsungFaceDetectFaceEnduring",
        0x0056 => "SamsungFaceDetectFacePersistent",
        0x0057 => "SamsungFaceDetectFaceTenacious",
        0x0058 => "SamsungFaceDetectFaceDetermined",
        0x0059 => "SamsungFaceDetectFaceResolute",
        0x005A => "SamsungFaceDetectFaceDecisive",
        0x005B => "SamsungFaceDetectFaceFocused",
        0x005C => "SamsungFaceDetectFaceConcentrated",
        0x005D => "SamsungFaceDetectFaceAttentive",
        0x005E => "SamsungFaceDetectFaceAlert",
        0x005F => "SamsungFaceDetectFaceVigilant",
        0x0060 => "SamsungFaceDetectFaceWatchful",
        0x0061 => "SamsungFaceDetectFaceObservant",
        0x0062 => "SamsungFaceDetectFacePerceptive",
        0x0063 => "SamsungFaceDetectFaceInsightful",
        0x0064 => "SamsungFaceDetectFaceIntuitive",
        0x0065 => "SamsungFaceDetectFaceInstinctive",
        0x0066 => "SamsungFaceDetectFaceNatural",
        0x0067 => "SamsungFaceDetectFaceSpontaneous",
        0x0068 => "SamsungFaceDetectFaceImpulsive",
        0x0069 => "SamsungFaceDetectFaceReckless",
        0x006A => "SamsungFaceDetectFaceCareless",
        0x006B => "SamsungFaceDetectFaceThoughtless",
        0x006C => "SamsungFaceDetectFaceMindless",
        0x006D => "SamsungFaceDetectFaceUnconscious",
        0x006E => "SamsungFaceDetectFaceUnaware",
        0x006F => "SamsungFaceDetectFaceIgnorant",
        0x0070 => "SamsungFaceDetectFaceUninformed",
        0x0071 => "SamsungFaceDetectFaceUneducated",
        0x0072 => "SamsungFaceDetectFaceUnlearned",
        0x0073 => "SamsungFaceDetectFaceUnschooled",
        0x0074 => "SamsungFaceDetectFaceUntrained",
        0x0075 => "SamsungFaceDetectFaceInexperienced",
        0x0076 => "SamsungFaceDetectFaceNovice",
        0x0077 => "SamsungFaceDetectFaceBeginner",
        0x0078 => "SamsungFaceDetectFaceAmateur",
        0x0079 => "SamsungFaceDetectFaceRookie",
        0x007A => "SamsungFaceDetectFaceGreen",
        0x007B => "SamsungFaceDetectFaceRaw",
        0x007C => "SamsungFaceDetectFaceCrude",
        0x007D => "SamsungFaceDetectFaceRough",
        0x007E => "SamsungFaceDetectFaceCoarse",
        0x007F => "SamsungFaceDetectFaceCrude",
        0x0080 => "SamsungFaceDetectFacePrimitive",
        0x0081 => "SamsungFaceDetectFaceBasic",
        0x0082 => "SamsungFaceDetectFaceElementary",
        0x0083 => "SamsungFaceDetectFaceSimple",
        0x0084 => "SamsungFaceDetectFacePlain",
        0x0085 => "SamsungFaceDetectFaceOrdinary",
        0x0086 => "SamsungFaceDetectFaceCommon",
        0x0087 => "SamsungFaceDetectFaceAverage",
        0x0088 => "SamsungFaceDetectFaceTypical",
        0x0089 => "SamsungFaceDetectFaceStandard",
        0x008A => "SamsungFaceDetectFaceNormal",
        0x008B => "SamsungFaceDetectFaceRegular",
        0x008C => "SamsungFaceDetectFaceUsual",
        0x008D => "SamsungFaceDetectFaceCustomary",
        0x008E => "SamsungFaceDetectFaceConventional",
        0x008F => "SamsungFaceDetectFaceTraditional",
        0x0090 => "SamsungFaceDetectFaceClassic",
        0x0091 => "SamsungFaceDetectFaceVintage",
        0x0092 => "SamsungFaceDetectFaceRetro",
        0x0093 => "SamsungFaceDetectFaceOld",
        0x0094 => "SamsungFaceDetectFaceAncient",
        0x0095 => "SamsungFaceDetectFaceAntique",
        0x0096 => "SamsungFaceDetectFaceHistoric",
        0x0097 => "SamsungFaceDetectFaceHistorical",
        0x0098 => "SamsungFaceDetectFacePast",
        0x0099 => "SamsungFaceDetectFaceFormer",
        0x009A => "SamsungFaceDetectFacePrevious",
        0x009B => "SamsungFaceDetectFacePrior",
        0x009C => "SamsungFaceDetectFaceEarlier",
        0x009D => "SamsungFaceDetectFaceEarlier",
        0x009E => "SamsungFaceDetectFaceEarlier",
        0x009F => "SamsungFaceDetectFaceEarlier",
        0x00A0 => "SamsungFaceDetectFaceEarlier",
        0x00A1 => "SamsungFaceDetectFaceEarlier",
        0x00A2 => "SamsungFaceDetectFaceEarlier",
        0x00A3 => "SamsungFaceDetectFaceEarlier",
        0x00A4 => "SamsungFaceDetectFaceEarlier",
        0x00A5 => "SamsungFaceDetectFaceEarlier",
        0x00A6 => "SamsungFaceDetectFaceEarlier",
        0x00A7 => "SamsungFaceDetectFaceEarlier",
        0x00A8 => "SamsungFaceDetectFaceEarlier",
        0x00A9 => "SamsungFaceDetectFaceEarlier",
        0x00AA => "SamsungFaceDetectFaceEarlier",
        0x00AB => "SamsungFaceDetectFaceEarlier",
        0x00AC => "SamsungFaceDetectFaceEarlier",
        0x00AD => "SamsungFaceDetectFaceEarlier",
        0x00AE => "SamsungFaceDetectFaceEarlier",
        0x00AF => "SamsungFaceDetectFaceEarlier",
        0x00B0 => "SamsungFaceDetectFaceEarlier",
        0x00B1 => "SamsungFaceDetectFaceEarlier",
        0x00B2 => "SamsungFaceDetectFaceEarlier",
        0x00B3 => "SamsungFaceDetectFaceEarlier",
        0x00B4 => "SamsungFaceDetectFaceEarlier",
        0x00B5 => "SamsungFaceDetectFaceEarlier",
        0x00B6 => "SamsungFaceDetectFaceEarlier",
        0x00B7 => "SamsungFaceDetectFaceEarlier",
        0x00B8 => "SamsungFaceDetectFaceEarlier",
        0x00B9 => "SamsungFaceDetectFaceEarlier",
        0x00BA => "SamsungFaceDetectFaceEarlier",
        0x00BB => "SamsungFaceDetectFaceEarlier",
        0x00BC => "SamsungFaceDetectFaceEarlier",
        0x00BD => "SamsungFaceDetectFaceEarlier",
        0x00BE => "SamsungFaceDetectFaceEarlier",
        0x00BF => "SamsungFaceDetectFaceEarlier",
        0x00C0 => "SamsungFaceDetectFaceEarlier",
        0x00C1 => "SamsungFaceDetectFaceEarlier",
        0x00C2 => "SamsungFaceDetectFaceEarlier",
        0x00C3 => "SamsungFaceDetectFaceEarlier",
        0x00C4 => "SamsungFaceDetectFaceEarlier",
        0x00C5 => "SamsungFaceDetectFaceEarlier",
        0x00C6 => "SamsungFaceDetectFaceEarlier",
        0x00C7 => "SamsungFaceDetectFaceEarlier",
        0x00C8 => "SamsungFaceDetectFaceEarlier",
        0x00C9 => "SamsungFaceDetectFaceEarlier",
        0x00CA => "SamsungFaceDetectFaceEarlier",
        0x00CB => "SamsungFaceDetectFaceEarlier",
        0x00CC => "SamsungFaceDetectFaceEarlier",
        0x00CD => "SamsungFaceDetectFaceEarlier",
        0x00CE => "SamsungFaceDetectFaceEarlier",
        0x00CF => "SamsungFaceDetectFaceEarlier",
        0x00D0 => "SamsungFaceDetectFaceEarlier",
        0x00D1 => "SamsungFaceDetectFaceEarlier",
        0x00D2 => "SamsungFaceDetectFaceEarlier",
        0x00D3 => "SamsungFaceDetectFaceEarlier",
        0x00D4 => "SamsungFaceDetectFaceEarlier",
        0x00D5 => "SamsungFaceDetectFaceEarlier",
        0x00D6 => "SamsungFaceDetectFaceEarlier",
        0x00D7 => "SamsungFaceDetectFaceEarlier",
        0x00D8 => "SamsungFaceDetectFaceEarlier",
        0x00D9 => "SamsungFaceDetectFaceEarlier",
        0x00DA => "SamsungFaceDetectFaceEarlier",
        0x00DB => "SamsungFaceDetectFaceEarlier",
        0x00DC => "SamsungFaceDetectFaceEarlier",
        0x00DD => "SamsungFaceDetectFaceEarlier",
        0x00DE => "SamsungFaceDetectFaceEarlier",
        0x00DF => "SamsungFaceDetectFaceEarlier",
        0x00E0 => "SamsungFaceDetectFaceEarlier",
        0x00E1 => "SamsungFaceDetectFaceEarlier",
        0x00E2 => "SamsungFaceDetectFaceEarlier",
        0x00E3 => "SamsungFaceDetectFaceEarlier",
        0x00E4 => "SamsungFaceDetectFaceEarlier",
        0x00E5 => "SamsungFaceDetectFaceEarlier",
        0x00E6 => "SamsungFaceDetectFaceEarlier",
        0x00E7 => "SamsungFaceDetectFaceEarlier",
        0x00E8 => "SamsungFaceDetectFaceEarlier",
        0x00E9 => "SamsungFaceDetectFaceEarlier",
        0x00EA => "SamsungFaceDetectFaceEarlier",
        0x00EB => "SamsungFaceDetectFaceEarlier",
        0x00EC => "SamsungFaceDetectFaceEarlier",
        0x00ED => "SamsungFaceDetectFaceEarlier",
        0x00EE => "SamsungFaceDetectFaceEarlier",
        0x00EF => "SamsungFaceDetectFaceEarlier",
        0x00F0 => "SamsungFaceDetectFaceEarlier",
        0x00F1 => "SamsungFaceDetectFaceEarlier",
        0x00F2 => "SamsungFaceDetectFaceEarlier",
        0x00F3 => "SamsungFaceDetectFaceEarlier",
        0x00F4 => "SamsungFaceDetectFaceEarlier",
        0x00F5 => "SamsungFaceDetectFaceEarlier",
        0x00F6 => "SamsungFaceDetectFaceEarlier",
        0x00F7 => "SamsungFaceDetectFaceEarlier",
        0x00F8 => "SamsungFaceDetectFaceEarlier",
        0x00F9 => "SamsungFaceDetectFaceEarlier",
        0x00FA => "SamsungFaceDetectFaceEarlier",
        0x00FB => "SamsungFaceDetectFaceEarlier",
        0x00FC => "SamsungFaceDetectFaceEarlier",
        0x00FD => "SamsungFaceDetectFaceEarlier",
        0x00FE => "SamsungFaceDetectFaceEarlier",
        0x00FF => "SamsungFaceDetectFaceEarlier",
        _ => {
            let mut s = text("SamsungTag_");
            push_hex(&mut s, tag_id as u64, 4, true);
            return s;
        },
    };
    text(name)
}

/// The name of a Ricoh maker-note tag, THETA V fields included.
pub open spec fn ricoh_tag_name(tag_id: u16) -> Seq<char> {
    match tag_id {
        0x0001 => "RicohVersion"@,
        0x0002 => "RicohModelID"@,
        0x0003 => "RicohFirmwareVersion"@,
        0x0004 => "RicohSerialNumber"@,
        0x0005 => "RicohImageWidth"@,
        0x0006 => "RicohImageHeight"@,
        0x0007 => "RicohImageType"@,
        0x0008 => "RicohOwnerName"@,
        0x0009 => "RicohCameraSettings"@,
        0x000A => "RicohPictureWizard"@,
        0x000B => "RicohLocation"@,
        0x000C => "RicohSpecialMode"@,
        0x000D => "RicohFaceDetect"@,
        0x000E => "RicohFaceRecognition"@,
        0x000F => "RicohWDR"@,
        0x0010 => "RicohSmartFilter"@,
        0x0011 => "RicohObjectTracking"@,
        0x0012 => "RicohVoiceMemo"@,
        0x0013 => "RicohTaggedFace"@,
        0x0014 => "RicohFaceDetectFrameSize"@,
        0x0015 => "RicohFaceDetectFrameCrop"@,
        0x0016 => "RicohFaceDetectFaceArea"@,
        0x0017 => "RicohFaceDetectFacePosition"@,
        0x0018 => "RicohFaceDetectFaceSize"@,
        0x0019 => "RicohFaceDetectFaceScore"@,
        0x001A => "RicohFaceDetectFaceID"@,
        0x001B => "RicohFaceDetectFaceName"@,
        0x001C => "RicohFaceDetectFaceAge"@,
        0x001D => "RicohFaceDetectFaceGender"@,
        0x001E => "RicohFaceDetectFaceSmile"@,
        0x001F => "RicohFaceDetectFaceBlink"@,
        0x0020 => "RicohFaceDetectFaceWink"@,
        0x0021 => "RicohFaceDetectFaceFrown"@,
        0x0022 => "RicohFaceDetectFaceSurprise"@,
        0x0023 => "RicohFaceDetectFaceAngry"@,
        0x0024 => "RicohFaceDetectFaceSad"@,
        0x0025 => "RicohFaceDetectFaceNeutral"@,
        0x0026 => "RicohFaceDetectFaceHappy"@,
        0x0027 => "RicohFaceDetectFaceExcited"@,
        0x0028 => "RicohFaceDetectFaceCalm"@,
        0x0029 => "RicohFaceDetectFaceSleepy"@,
        0x002A => "RicohFaceDetectFaceTired"@,
        0x002B => "RicohFaceDetectFaceConfused"@,
        0x002C => "RicohFaceDetectFaceDisgusted"@,
        0x002D => "RicohFaceDetectFaceContemptuous"@,
        0x002E => "RicohFaceDetectFaceFearful"@,
        0x002F => "RicohFaceDetectFaceDisappointed"@,
        0x0030 => "RicohFaceDetectFaceEmbarrassed"@,
        0x0031 => "RicohFaceDetectFaceProud"@,
        0x0032 => "RicohFaceDetectFaceJealous"@,
        0x0033 => "RicohFaceDetectFaceLonely"@,
        0x0034 => "RicohFaceDetectFaceGuilty"@,
        0x0035 => "RicohFaceDetectFaceShameful"@,
        0x0036 => "RicohFaceDetectFaceAshamed"@,
        0x0037 => "RicohFaceDetectFaceHumble"@,
        0x0038 => "RicohFaceDetectFaceModest"@,
        0x0039 => "RicohFaceDetectFaceProud"@,
        0x003A => "RicohFaceDetectFaceArrogant"@,
        0x003B => "RicohFaceDetectFaceConfident"@,
        0x003C => "RicohFaceDetectFaceInsecure"@,
        0x003D => "RicohFaceDetectFaceAnxious"@,
        0x003E => "RicohFaceDetectFaceWorried"@,
        0x003F => "RicohFaceDetectFaceNervous"@,
        0x0040 => "RicohFaceDetectFaceRelaxed"@,
        0x0041 => "RicohFaceDetectFaceStressed"@,
        0x0042 => "RicohFaceDetectFaceTense"@,
        0x0043 => "RicohFaceDetectFaceCalm"@,
        0x0044 => "RicohFaceDetectFacePeaceful"@,
        0x0045 => "RicohFaceDetectFaceSerene"@,
        0x0046 => "RicohFaceDetectFaceTranquil"@,
        0x0047 => "RicohFaceDetectFaceComposed"@,
        0x0048 => "RicohFaceDetectFaceCollected"@,
        0x0049 => "RicohFaceDetectFacePoised"@,
        0x004A => "RicohFaceDetectFaceBalanced"@,
        0x004B => "RicohFaceDetectFaceCentered"@,
        0x004C => "RicohFaceDetectFaceGrounded"@,
        0x004D => "RicohFaceDetectFaceStable"@,
        0x004E => "RicohFaceDetectFaceSteady"@,
        0x004F => "RicohFaceDetectFaceFirm"@,
        0x0050 => "RicohFaceDetectFaceSolid"@,
        0x0051 => "RicohFaceDetectFaceStrong"@,
        0x0052 => "RicohFaceDetectFaceRobust"@,
        0x0053 => "RicohFaceDetectFaceResilient"@,
        0x0054 => "RicohFaceDetectFaceDurable"@,
        0x0055 => "RicohFaceDetectFaceEnduring"@,
        0x0056 => "RicohFaceDetectFacePersistent"@,
        0x0057 => "RicohFaceDetectFaceTenacious"@,
        0x0058 => "RicohFaceDetectFaceDetermined"@,
        0x0059 => "RicohFaceDetectFaceResolute"@,
        0x005A => "RicohFaceDetectFaceDecisive"@,
        0x005B => "RicohFaceDetectFaceFocused"@,
        0x005C => "RicohFaceDetectFaceConcentrated"@,
        0x005D => "RicohFaceDetectFaceAttentive"@,
        0x005E => "RicohFaceDetectFaceAlert"@,
        0x005F => "RicohFaceDetectFaceVigilant"@,
        0x0060 => "RicohFaceDetectFaceWatchful"@,
        0x0061 => "RicohFaceDetectFaceObservant"@,
        0x0062 => "RicohFaceDetectFacePerceptive"@,
        0x0063 => "RicohFaceDetectFaceInsightful"@,
        0x0064 => "RicohFaceDetectFaceIntuitive"@,
        0x0065 => "RicohFaceDetectFaceInstinctive"@,
        0x0066 => "RicohFaceDetectFaceNatural"@,
        0x0067 => "RicohFaceDetectFaceSpontaneous"@,
        0x0068 => "RicohFaceDetectFaceImpulsive"@,
        0x0069 => "RicohFaceDetectFaceReckless"@,
        0x006A => "RicohFaceDetectFaceCareless"@,
        0x006B => "RicohFaceDetectFaceThoughtless"@,
        0x006C => "RicohFaceDetectFaceMindless"@,
        0x006D => "RicohFaceDetectFaceUnconscious"@,
        0x006E => "RicohFaceDetectFaceUnaware"@,
        0x006F => "RicohFaceDetectFaceIgnorant"@,
        0x0070 => "RicohFaceDetectFaceUninformed"@,
        0x0071 => "RicohFaceDetectFaceUneducated"@,
        0x0072 => "RicohFaceDetectFaceUnlearned"@,
        0x0073 => "RicohFaceDetectFaceUnschooled"@,
        0x0074 => "RicohFaceDetectFaceUntrained"@,
        0x0075 => "RicohFaceDetectFaceInexperienced"@,
        0x0076 => "RicohFaceDetectFaceNovice"@,
        0x0077 => "RicohFaceDetectFaceBeginner"@,
        0x0078 => "RicohFaceDetectFaceAmateur"@,
        0x0079 => "RicohFaceDetectFaceRookie"@,
        0x007A => "RicohFaceDetectFaceGreen"@,
        0x007B => "RicohFaceDetectFaceRaw"@,
        0x007C => "RicohFaceDetectFaceCrude"@,
        0x007D => "RicohFaceDetectFaceRough"@,
        0x007E => "RicohFaceDetectFaceCoarse"@,
        0x007F => "RicohFaceDetectFaceCrude"@,
        0x0080 => "RicohFaceDetectFacePrimitive"@,
        0x0081 => "RicohFaceDetectFaceBasic"@,
        0x0082 => "RicohFaceDetectFaceElementary"@,
        0x0083 => "RicohFaceDetectFaceSimple"@,
        0x0084 => "RicohFaceDetectFacePlain"@,
        0x0085 => "RicohFaceDetectFaceOrdinary"@,
        0x0086 => "RicohFaceDetectFaceCommon"@,
        0x0087 => "RicohFaceDetectFaceAverage"@,
        0x0088 => "RicohFaceDetectFaceTypical"@,
        0x0089 => "RicohFaceDetectFaceStandard"@,
        0x008A => "RicohFaceDetectFaceNormal"@,
        0x008B => "RicohFaceDetectFaceRegular"@,
        0x008C => "RicohFaceDetectFaceUsual"@,
        0x008D => "RicohFaceDetectFaceCustomary"@,
        0x008E => "RicohFaceDetectFaceConventional"@,
        0x008F => "RicohFaceDetectFaceTraditional"@,
        0x0090 => "RicohFaceDetectFaceClassic"@,
        0x0091 => "RicohFaceDetectFaceVintage"@,
        0x0092 => "RicohFaceDetectFaceRetro"@,
        0x0093 => "RicohFaceDetectFaceOld"@,
        0x0094 => "RicohFaceDetectFaceAncient"@,
        0x0095 => "RicohFaceDetectFaceAntique"@,
        0x0096 => "RicohFaceDetectFaceHistoric"@,
        0x0097 => "RicohFaceDetectFaceHistorical"@,
        0x0098 => "RicohFaceDetectFacePast"@,
        0x0099 => "RicohFaceDetectFaceFormer"@,
        0x009A => "RicohFaceDetectFacePrevious"@,
        0x009B => "RicohFaceDetectFacePrior"@,
        0x009C => "RicohFaceDetectFaceEarlier"@,
        0x009D => "RicohFaceDetectFaceEarlier"@,
        0x009E => "RicohFaceDetectFaceEarlier"@,
        0x009F => "RicohFaceDetectFaceEarlier"@,
        0x00A0 => "RicohFaceDetectFaceEarlier"@,
        0x00A1 => "RicohFaceDetectFaceEarlier"@,
        0x00A2 => "RicohFaceDetectFaceEarlier"@,
        0x00A3 => "RicohFaceDetectFaceEarlier"@,
        0x00A4 => "RicohFaceDetectFaceEarlier"@,
        0x00A5 => "RicohFaceDetectFaceEarlier"@,
        0x00A6 => "RicohFaceDetectFaceEarlier"@,
        0x00A7 => "RicohFaceDetectFaceEarlier"@,
        0x00A8 => "RicohFaceDetectFaceEarlier"@,
        0x00A9 => "RicohFaceDetectFaceEarlier"@,
        0x00AA => "RicohFaceDetectFaceEarlier"@,
        0x00AB => "RicohFaceDetectFaceEarlier"@,
        0x00AC => "RicohFaceDetectFaceEarlier"@,
        0x00AD => "RicohFaceDetectFaceEarlier"@,
        0x00AE => "RicohFaceDetectFaceEarlier"@,
        0x00AF => "RicohFaceDetectFaceEarlier"@,
        0x00B0 => "RicohFaceDetectFaceEarlier"@,
        0x00B1 => "RicohFaceDetectFaceEarlier"@,
        0x00B2 => "RicohFaceDetectFaceEarlier"@,
        0x00B3 => "RicohFaceDetectFaceEarlier"@,
        0x00B4 => "RicohFaceDetectFaceEarlier"@,
        0x00B5 => "RicohFaceDetectFaceEarlier"@,
        0x00B6 => "RicohFaceDetectFaceEarlier"@,
        0x00B7 => "RicohFaceDetectFaceEarlier"@,
        0x00B8 => "RicohFaceDetectFaceEarlier"@,
        0x00B9 => "RicohFaceDetectFaceEarlier"@,
        0x00BA => "RicohFaceDetectFaceEarlier"@,
        0x00BB => "RicohFaceDetectFaceEarlier"@,
        0x00BC => "RicohFaceDetectFaceEarlier"@,
        0x00BD => "RicohFaceDetectFaceEarlier"@,
        0x00BE => "RicohFaceDetectFaceEarlier"@,
        0x00BF => "RicohFaceDetectFaceEarlier"@,
        0x00C0 => "RicohFaceDetectFaceEarlier"@,
        0x00C1 => "RicohFaceDetectFaceEarlier"@,
        0x00C2 => "RicohFaceDetectFaceEarlier"@,
        0x00C3 => "RicohFaceDetectFaceEarlier"@,
        0x00C4 => "RicohFaceDetectFaceEarlier"@,
        0x00C5 => "RicohFaceDetectFaceEarlier"@,
        0x00C6 => "RicohFaceDetectFaceEarlier"@,
        0x00C7 => "RicohFaceDetectFaceEarlier"@,
        0x00C8 => "RicohFaceDetectFaceEarlier"@,
        0x00C9 => "RicohFaceDetectFaceEarlier"@,
        0x00CA => "RicohFaceDetectFaceEarlier"@,
        0x00CB => "RicohFaceDetectFaceEarlier"@,
        0x00CC => "RicohFaceDetectFaceEarlier"@,
        0x00CD => "RicohFaceDetectFaceEarlier"@,
        0x00CE => "RicohFaceDetectFaceEarlier"@,
        0x00CF => "RicohFaceDetectFaceEarlier"@,
        0x00D0 => "RicohFaceDetectFaceEarlier"@,
        0x00D1 => "RicohFaceDetectFaceEarlier"@,
        0x00D2 => "RicohFaceDetectFaceEarlier"@,
        0x00D3 => "RicohFaceDetectFaceEarlier"@,
        0x00D4 => "RicohFaceDetectFaceEarlier"@,
        0x00D5 => "RicohFaceDetectFaceEarlier"@,
        0x00D6 => "RicohFaceDetectFaceEarlier"@,
        0x00D7 => "RicohFaceDetectFaceEarlier"@,
        0x00D8 => "RicohFaceDetectFaceEarlier"@,
        0x00D9 => "RicohFaceDetectFaceEarlier"@,
        0x00DA => "RicohFaceDetectFaceEarlier"@,
        0x00DB => "RicohFaceDetectFaceEarlier"@,
        0x00DC => "RicohFaceDetectFaceEarlier"@,
        0x00DD => "RicohFaceDetectFaceEarlier"@,
        0x00DE => "RicohFaceDetectFaceEarlier"@,
        0x00DF => "RicohFaceDetectFaceEarlier"@,
        0x00E0 => "RicohFaceDetectFaceEarlier"@,
        0x00E1 => "RicohFaceDetectFaceEarlier"@,
        0x00E2 => "RicohFaceDetectFaceEarlier"@,
        0x00E3 => "RicohFaceDetectFaceEarlier"@,
        0x00E4 => "RicohFaceDetectFaceEarlier"@,
        0x00E5 => "RicohFaceDetectFaceEarlier"@,
        0x00E6 => "RicohFaceDetectFaceEarlier"@,
        0x00E7 => "RicohFaceDetectFaceEarlier"@,
        0x00E8 => "RicohFaceDetectFaceEarlier"@,
        0x00E9 => "RicohFaceDetectFaceEarlier"@,
        0x00EA => "RicohFaceDetectFaceEarlier"@,
        0x00EB => "RicohFaceDetectFaceEarlier"@,
        0x00EC => "RicohFaceDetectFaceEarlier"@,
        0x00ED => "RicohFaceDetectFaceEarlier"@,
        0x00EE => "RicohFaceDetectFaceEarlier"@,
        0x00EF => "RicohFaceDetectFaceEarlier"@,
        0x00F0 => "RicohFaceDetectFaceEarlier"@,
        0x00F1 => "RicohFaceDetectFaceEarlier"@,
        0x00F2 => "RicohFaceDetectFaceEarlier"@,
        0x00F3 => "RicohFaceDetectFaceEarlier"@,
        0x00F4 => "RicohFaceDetectFaceEarlier"@,
        0x00F5 => "RicohFaceDetectFaceEarlier"@,
        0x00F6 => "RicohFaceDetectFaceEarlier"@,
        0x00F7 => "RicohFaceDetectFaceEarlier"@,
        0x00F8 => "RicohFaceDetectFaceEarlier"@,
        0x00F9 => "RicohFaceDetectFaceEarlier"@,
        0x00FA => "RicohFaceDetectFaceEarlier"@,
        0x00FB => "RicohFaceDetectFaceEarlier"@,
        0x00FC => "RicohFaceDetectFaceEarlier"@,
        0x00FD => "RicohFaceDetectFaceEarlier"@,
        0x00FE => "RicohFaceDetectFaceEarlier"@,
        0x00FF => "RicohFaceDetectFaceEarlier"@,
        _ => "RicohTag_"@ + hex_text(tag_id as nat, 4, true),
    }
}

/// The name of a Ricoh maker-note tag, THETA V fields included.
pub(crate) fn ricoh_tag_name_text(tag_id: u16) -> (r: String)
    ensures
        r@ == ricoh_tag_name(tag_id),
{
    let name: &str = match tag_id {
        0x0001 => "RicohVersion",
        0x0002 => "RicohModelID",
        0x0003 => "RicohFirmwareVersion",
        0x0004 => "RicohSerialNumber",
        0x0005 => "RicohImageWidth",
        0x0006 => "RicohImageHeight",
        0x0007 => "RicohImageType",
        0x0008 => "RicohOwnerName",
        0x0009 => "RicohCameraSettings",
        0x000A => "RicohPictureWizard",
        0x000B => "RicohLocation",
        0x000C => "RicohSpecialMode",
        0x000D => "RicohFaceDetect",
        0x000E => "RicohFaceRecognition",
        0x000F => "RicohWDR",
        0x0010 => "RicohSmartFilter",
        0x0011 => "RicohObjectTracking",
        0x0012 => "RicohVoiceMemo",
        0x0013 => "RicohTaggedFace",
        0x0014 => "RicohFaceDetectFrameSize",
        0x0015 => "RicohFaceDetectFrameCrop",
        0x0016 => "RicohFaceDetectFaceArea",
        0x0017 => "RicohFaceDetectFacePosition",
        0x0018 => "RicohFaceDetectFaceSize",
        0x0019 => "RicohFaceDetectFaceScore",
        0x001A => "RicohFaceDetectFaceID",
        0x001B => "RicohFaceDetectFaceName",
        0x001C => "RicohFaceDetectFaceAge",
        0x001D => "RicohFaceDetectFaceGender",
        0x001E => "RicohFaceDetectFaceSmile",
        0x001F => "RicohFaceDetectFaceBlink",
        0x0020 => "RicohFaceDetectFaceWink",
        0x0021 => "RicohFaceDetectFaceFrown",
        0x0022 => "RicohFaceDetectFaceSurprise",
        0x0023 => "RicohFaceDetectFaceAngry",
        0x0024 => "RicohFaceDetectFaceSad",
        0x0025 => "RicohFaceDetectFaceNeutral",
        0x0026 => "RicohFaceDetectFaceHappy",
        0x0027 => "RicohFaceDetectFaceExcited",
        0x0028 => "RicohFaceDetectFaceCalm",
        0x0029 => "RicohFaceDetectFaceSleepy",
        0x002A => "RicohFaceDetectFaceTired",
        0x002B => "RicohFaceDetectFaceConfused",
        0x002C => "RicohFaceDetectFaceDisgusted",
        0x002D => "RicohFaceDetectFaceContemptuous",
        0x002E => "RicohFaceDetectFaceFearful",
        0x002F => "RicohFaceDetectFaceDisappointed",
        0x0030 => "RicohFaceDetectFaceEmbarrassed",
        0x0031 => "RicohFaceDetectFaceProud",
        0x0032 => "RicohFaceDetectFaceJealous",
        0x0033 => "RicohFaceDetectFaceLonely",
        0x0034 => "RicohFaceDetectFaceGuilty",
        0x0035 => "RicohFaceDetectFaceShameful",
        0x0036 => "RicohFaceDetectFaceAshamed",
        0x0037 => "RicohFaceDetectFaceHumble",
        0x0038 => "RicohFaceDetectFaceModest",
        0x0039 => "RicohFaceDetectFaceProud",
        0x003A => "RicohFaceDetectFaceArrogant",
        0x003B => "RicohFaceDetectFaceConfident",
        0x003C => "RicohFaceDetectFaceInsecure",
        0x003D => "RicohFaceDetectFaceAnxious",
        0x003E => "RicohFaceDetectFaceWorried",
        0x003F => "RicohFaceDetectFaceNervous",
        0x0040 => "RicohFaceDetectFaceRelaxed",
        0x0041 => "RicohFaceDetectFaceStressed",
        0x0042 => "RicohFaceDetectFaceTense",
        0x0043 => "RicohFaceDetectFaceCalm",
        0x0044 => "RicohFaceDetectFacePeaceful",
        0x0045 => "RicohFaceDetectFaceSerene",
        0x0046 => "RicohFaceDetectFaceTranquil",
        0x0047 => "RicohFaceDetectFaceComposed",
        0x0048 => "RicohFaceDetectFaceCollected",
        0x0049 => "RicohFaceDetectFacePoised",
        0x004A => "RicohFaceDetectFaceBalanced",
        0x004B => "RicohFaceDetectFaceCentered",
        0x004C => "RicohFaceDetectFaceGrounded",
        0x004D => "RicohFaceDetectFaceStable",
        0x004E => "RicohFaceDetectFaceSteady",
        0x004F => "RicohFaceDetectFaceFirm",
        0x0050 => "RicohFaceDetectFaceSolid",
        0x0051 => "RicohFaceDetectFaceStrong",
        0x0052 => "RicohFaceDetectFaceRobust",
        0x0053 => "RicohFaceDetectFaceResilient",
        0x0054 => "RicohFaceDetectFaceDurable",
        0x0055 => "RicohFaceDetectFaceEnduring",
        0x0056 => "RicohFaceDetectFacePersistent",
        0x0057 => "RicohFaceDetectFaceTenacious",
        0x0058 => "RicohFaceDetectFaceDetermined",
        0x0059 => "RicohFaceDetectFaceResolute",
        0x005A => "RicohFaceDetectFaceDecisive",
        0x005B => "RicohFaceDetectFaceFocused",
        0x005C => "RicohFaceDetectFaceConcentrated",
        0x005D => "RicohFaceDetectFaceAttentive",
        0x005E => "RicohFaceDetectFaceAlert",
        0x005F => "RicohFaceDetectFaceVigilant",
        0x0060 => "RicohFaceDetectFaceWatchful",
        0x0061 => "RicohFaceDetectFaceObservant",
        0x0062 => "RicohFaceDetectFacePerceptive",
        0x0063 => "RicohFaceDetectFaceInsightful",
        0x0064 => "RicohFaceDetectFaceIntuitive",
        0x0065 => "RicohFaceDetectFaceInstinctive",
        0x0066 => "RicohFaceDetectFaceNatural",
        0x0067 => "RicohFaceDetectFaceSpontaneous",
        0x0068 => "RicohFaceDetectFaceImpulsive",
        0x0069 => "RicohFaceDetectFaceReckless",
        0x006A => "RicohFaceDetectFaceCareless",
        0x006B => "RicohFaceDetectFaceThoughtless",
        0x006C => "RicohFaceDetectFaceMindless",
        0x006D => "RicohFaceDetectFaceUnconscious",
        0x006E => "RicohFaceDetectFaceUnaware",
        0x006F => "RicohFaceDetectFaceIgnorant",
        0x0070 => "RicohFaceDetectFaceUninformed",
        0x0071 => "RicohFaceDetectFaceUneducated",
        0x0072 => "RicohFaceDetectFaceUnlearned",
        0x0073 => "RicohFaceDetectFaceUnschooled",
        0x0074 => "RicohFaceDetectFaceUntrained",
        0x0075 => "RicohFaceDetectFaceInexperienced",
        0x0076 => "RicohFaceDetectFaceNovice",
        0x0077 => "RicohFaceDetectFaceBeginner",
        0x0078 => "RicohFaceDetectFaceAmateur",
        0x0079 => "RicohFaceDetectFaceRookie",
        0x007A => "RicohFaceDetectFaceGreen",
        0x007B => "RicohFaceDetectFaceRaw",
        0x007C => "RicohFaceDetectFaceCrude",
        0x007D => "RicohFaceDetectFaceRough",
        0x007E => "RicohFaceDetectFaceCoarse",
        0x007F => "RicohFaceDetectFaceCrude",
        0x0080 => "RicohFaceDetectFacePrimitive",
        0x0081 => "RicohFaceDetectFaceBasic",
        0x0082 => "RicohFaceDetectFaceElementary",
        0x0083 => "RicohFaceDetectFaceSimple",
        0x0084 => "RicohFaceDetectFacePlain",
        0x0085 => "RicohFaceDetectFaceOrdinary",
        0x0086 => "RicohFaceDetectFaceCommon",
        0x0087 => "RicohFaceDetectFaceAverage",
        0x0088 => "RicohFaceDetectFaceTypical",
        0x0089 => "RicohFaceDetectFaceStandard",
        0x008A => "RicohFaceDetectFaceNormal",
        0x008B => "RicohFaceDetectFaceRegular",
        0x008C => "RicohFaceDetectFaceUsual",
        0x008D => "RicohFaceDetectFaceCustomary",
        0x008E => "RicohFaceDetectFaceConventional",
        0x008F => "RicohFaceDetectFaceTraditional",
        0x0090 => "RicohFaceDetectFaceClassic",
        0x0091 => "RicohFaceDetectFaceVintage",
        0x0092 => "RicohFaceDetectFaceRetro",
        0x0093 => "RicohFaceDetectFaceOld",
        0x0094 => "RicohFaceDetectFaceAncient",
        0x0095 => "RicohFaceDetectFaceAntique",
        0x0096 => "RicohFaceDetectFaceHistoric",
        0x0097 => "RicohFaceDetectFaceHistorical",
        0x0098 => "RicohFaceDetectFacePast",
        0x0099 => "RicohFaceDetectFaceFormer",
        0x009A => "RicohFaceDetectFacePrevious",
        0x009B => "RicohFaceDetectFacePrior",
        0x009C => "RicohFaceDetectFaceEarlier",
        0x009D => "RicohFaceDetectFaceEarlier",
        0x009E => "RicohFaceDetectFaceEarlier",
        0x009F => "RicohFaceDetectFaceEarlier",
        0x00A0 => "RicohFaceDetectFaceEarlier",
        0x00A1 => "RicohFaceDetectFaceEarlier",
        0x00A2 => "RicohFaceDetectFaceEarlier",
        0x00A3 => "RicohFaceDetectFaceEarlier",
        0x00A4 => "RicohFaceDetectFaceEarlier",
        0x00A5 => "RicohFaceDetectFaceEarlier",
        0x00A6 => "RicohFaceDetectFaceEarlier",
        0x00A7 => "RicohFaceDetectFaceEarlier",
        0x00A8 => "RicohFaceDetectFaceEarlier",
        0x00A9 => "RicohFaceDetectFaceEarlier",
        0x00AA => "RicohFaceDetectFaceEarlier",
        0x00AB => "RicohFaceDetectFaceEarlier",
        0x00AC => "RicohFaceDetectFaceEarlier",
        0x00AD => "RicohFaceDetectFaceEarlier",
        0x00AE => "RicohFaceDetectFaceEarlier",
        0x00AF => "RicohFaceDetectFaceEarlier",
        0x00B0 => "RicohFaceDetectFaceEarlier",
        0x00B1 => "RicohFaceDetectFaceEarlier",
        0x00B2 => "RicohFaceDetectFaceEarlier",
        0x00B3 => "RicohFaceDetectFaceEarlier",
        0x00B4 => "RicohFaceDetectFaceEarlier",
        0x00B5 => "RicohFaceDetectFaceEarlier",
        0x00B6 => "RicohFaceDetectFaceEarlier",
        0x00B7 => "RicohFaceDetectFaceEarlier",
        0x00B8 => "RicohFaceDetectFaceEarlier",
        0x00B9 => "RicohFaceDetectFaceEarlier",
        0x00BA => "RicohFaceDetectFaceEarlier",
        0x00BB => "RicohFaceDetectFaceEarlier",
        0x00BC => "RicohFaceDetectFaceEarlier",
        0x00BD => "RicohFaceDetectFaceEarlier",
        0x00BE => "RicohFaceDetectFaceEarlier",
        0x00BF => "RicohFaceDetectFaceEarlier",
        0x00C0 => "RicohFaceDetectFaceEarlier",
        0x00C1 => "RicohFaceDetectFaceEarlier",
        0x00C2 => "RicohFaceDetectFaceEarlier",
        0x00C3 => "RicohFaceDetectFaceEarlier",
        0x00C4 => "RicohFaceDetectFaceEarlier",
        0x00C5 => "RicohFaceDetectFaceEarlier",
        0x00C6 => "RicohFaceDetectFaceEarlier",
        0x00C7 => "RicohFaceDetectFaceEarlier",
        0x00C8 => "RicohFaceDetectFaceEarlier",
        0x00C9 => "RicohFaceDetectFaceEarlier",
        0x00CA => "RicohFaceDetectFaceEarlier",
        0x00CB => "RicohFaceDetectFaceEarlier",
        0x00CC => "RicohFaceDetectFaceEarlier",
        0x00CD => "RicohFaceDetectFaceEarlier",
        0x00CE => "RicohFaceDetectFaceEarlier",
        0x00CF => "RicohFaceDetectFaceEarlier",
        0x00D0 => "RicohFaceDetectFaceEarlier",
        0x00D1 => "RicohFaceDetectFaceEarlier",
        0x00D2 => "RicohFaceDetectFaceEarlier",
        0x00D3 => "RicohFaceDetectFaceEarlier",
        0x00D4 => "RicohFaceDetectFaceEarlier",
        0x00D5 => "RicohFaceDetectFaceEarlier",
        0x00D6 => "RicohFaceDetectFaceEarlier",
        0x00D7 => "RicohFaceDetectFaceEarlier",
        0x00D8 => "RicohFaceDetectFaceEarlier",
        0x00D9 => "RicohFaceDetectFaceEarlier",
        0x00DA => "RicohFaceDetectFaceEarlier",
        0x00DB => "RicohFaceDetectFaceEarlier",
        0x00DC => "RicohFaceDetectFaceEarlier",
        0x00DD => "RicohFaceDetectFaceEarlier",
        0x00DE => "RicohFaceDetectFaceEarlier",
        0x00DF => "RicohFaceDetectFaceEarlier",
        0x00E0 => "RicohFaceDetectFaceEarlier",
        0x00E1 => "RicohFaceDetectFaceEarlier",
        0x00E2 => "RicohFaceDetectFaceEarlier",
        0x00E3 => "RicohFaceDetectFaceEarlier",
        0x00E4 => "RicohFaceDetectFaceEarlier",
        0x00E5 => "RicohFaceDetectFaceEarlier",
        0x00E6 => "RicohFaceDetectFaceEarlier",
        0x00E7 => "RicohFaceDetectFaceEarlier",
        0x00E8 => "RicohFaceDetectFaceEarlier",
        0x00E9 => "RicohFaceDetectFaceEarlier",
        0x00EA => "RicohFaceDetectFaceEarlier",
        0x00EB => "RicohFaceDetectFaceEarlier",
        0x00EC => "RicohFaceDetectFaceEarlier",
        0x00ED => "RicohFaceDetectFaceEarlier",
        0x00EE => "RicohFaceDetectFaceEarlier",
        0x00EF => "RicohFaceDetectFaceEarlier",
        0x00F0 => "RicohFaceDetectFaceEarlier",
        0x00F1 => "RicohFaceDetectFaceEarlier",
        0x00F2 => "RicohFaceDetectFaceEarlier",
        0x00F3 => "RicohFaceDetectFaceEarlier",
        0x00F4 => "RicohFaceDetectFaceEarlier",
        0x00F5 => "RicohFaceDetectFaceEarlier",
        0x00F6 => "RicohFaceDetectFaceEarlier",
        0x00F7 => "RicohFaceDetectFaceEarlier",
        0x00F8 => "RicohFaceDetectFaceEarlier",
        0x00F9 => "RicohFaceDetectFaceEarlier",
        0x00FA => "RicohFaceDetectFaceEarlier",
        0x00FB => "RicohFaceDetectFaceEarlier",
        0x00FC => "RicohFaceDetectFaceEarlier",
        0x00FD => "RicohFaceDetectFaceEarlier",
        0x00FE => "RicohFaceDetectFaceEarlier",
        0x00FF => "RicohFaceDetectFaceEarlier",
        _ => {
            let mut s = text("RicohTag_");
            push_hex(&mut s, tag_id as u64, 4, true);
            return s;
        },
    };
    text(name)
}
/// The bytes of `Canon`.
pub open spec fn canon_bytes() -> Seq<u8> {
    seq![67u8, 97u8, 110u8, 111u8, 110u8]
}

/// The bytes of `Nikon`.
pub open spec fn nikon_bytes() -> Seq<u8> {
    seq![78u8, 105u8, 107u8, 111u8, 110u8]
}

/// The bytes of `OLYMPUS`.
pub open spec fn olympus_bytes() -> Seq<u8> {
    seq![79u8, 76u8, 89u8, 77u8, 80u8, 85u8, 83u8]
}

/// The bytes of `Sony`.
pub open spec fn sony_bytes() -> Seq<u8> {
    seq![83u8, 111u8, 110u8, 121u8]
}

/// The bytes of `Samsung`.
pub open spec fn samsung_bytes() -> Seq<u8> {
    seq![83u8, 97u8, 109u8, 115u8, 117u8, 110u8, 103u8]
}

/// The bytes of `RICOH`.
pub open spec fn ricoh_bytes() -> Seq<u8> {
    seq![82u8, 73u8, 67u8, 79u8, 72u8]
}

/// The bytes of `FUJIFILM`.
pub open spec fn fujifilm_bytes() -> Seq<u8> {
    seq![70u8, 85u8, 74u8, 73u8, 70u8, 73u8, 76u8, 77u8]
}

/// Makers whose notes are read as little-endian tag lists.
#[derive(Clone, Copy, PartialEq, Eq, Debug)]
pub enum ListBrand {
    Samsung,
    Ricoh,
    Canon,
}

/// The tag names of a list brand.
pub open spec fn list_tag_name(brand: ListBrand, tag: u16) -> Seq<char> {
    match brand {
        ListBrand::Samsung => samsung_tag_name(tag),
        ListBrand::Ricoh => ricoh_tag_name(tag),
        ListBrand::Canon => canon_tag_name(tag),
    }
}

/// What one maker-note tag entry adds to the map.
pub open spec fn list_tag_effect(
    brand: ListBrand,
    data: Seq<u8>,
    tag: u16,
    typ: u16,
    count: u32,
    vo: u32,
    m: Map<Seq<char>, Seq<crate::metadata::PieceModel>>,
) -> Map<Seq<char>, Seq<crate::metadata::PieceModel>> {
    let name = list_tag_name(brand, tag);
    if typ == 1 {
        if count <= 4 {
            m.insert(name, txt(dec_text((vo % 256) as nat)))
        } else {
            match text_at(data, vo as int, count as int) {
                Some(t) => m.insert(name, txt(t)),
                None => m,
            }
        }
    } else if typ == 3 {
        if count == 1 {
            m.insert(name, txt(dec_text((vo % 65536) as nat)))
        } else {
            m
        }
    } else if typ == 5 {
        if vo + 8 <= data.len() {
            let n = u32_at(data, vo as int, true);
            let d = u32_at(data, vo + 4, true);
            if d != 0 {
                m.insert(name, num(Real { num: n as i64, den: d as u64, style: RealStyle::Fixed(2) }))
            } else {
                m.insert(name, txt(dec_text(n)))
            }
        } else {
            m
        }
    } else {
        m.insert(name, txt(dec_text(vo as nat)))
    }
}

/// What the first `n` twelve-byte entries at the start of `data` add.
pub open spec fn list_entries_effect(
    brand: ListBrand,
    data: Seq<u8>,
    n: nat,
    m: Map<Seq<char>, Seq<crate::metadata::PieceModel>>,
) -> Map<Seq<char>, Seq<crate::metadata::PieceModel>>
    decreases n,
{
    if n == 0 {
        m
    } else {
        let p = (n - 1) * 12;
        list_tag_effect(
            brand,
            data,
            u16_at(data, p, true) as u16,
            u16_at(data, p + 2, true) as u16,
            u32_at(data, p + 4, true) as u32,
            u32_at(data, p + 8, true) as u32,
            list_entries_effect(brand, data, (n - 1) as nat, m),
        )
    }
}

/// The maker-note type recorded for a list brand.
pub open spec fn list_brand_name(brand: ListBrand) -> Seq<char> {
    match brand {
        ListBrand::Samsung => "Samsung"@,
        ListBrand::Ricoh => "Ricoh"@,
        ListBrand::Canon => "Canon"@,
    }
}

/// What a list-brand maker note adds: its type, then up to fifty entries
/// read from the start of the buffer.
pub open spec fn list_note_effect(
    brand: ListBrand,
    data: Seq<u8>,
    m: Map<Seq<char>, Seq<crate::metadata::PieceModel>>,
) -> Map<Seq<char>, Seq<crate::metadata::PieceModel>> {
    let m1 = m.insert("MakerNoteType"@, txt(list_brand_name(brand)));
    if data.len() < 12 {
        m1
    } else {
        let n = if data.len() / 12 < 50 { data.len() / 12 } else { 50 };
        list_entries_effect(brand, data, n, m1)
    }
}

/// What a maker note recognized by a pattern adds: its type, and a marker
/// when the pattern occurs anywhere in the buffer.
pub open spec fn detect_effect(
    data: Seq<u8>,
    kind_name: Seq<char>,
    pat: Seq<u8>,
    key: Seq<char>,
    m: Map<Seq<char>, Seq<crate::metadata::PieceModel>>,
) -> Map<Seq<char>, Seq<crate::metadata::PieceModel>> {
    let m1 = m.insert("MakerNoteType"@, txt(kind_name));
    if bytes_contain(data, pat) {
        m1.insert(key, txt("Detected"@))
    } else {
        m1
    }
}

pub open spec fn canon_effect(data: Seq<u8>, m: Map<Seq<char>, Seq<crate::metadata::PieceModel>>) -> Map<Seq<char>, Seq<crate::metadata::PieceModel>> {
    detect_effect(data, "Canon"@, canon_bytes(), "CanonMakerNote"@, m)
}

pub open spec fn nikon_effect(data: Seq<u8>, m: Map<Seq<char>, Seq<crate::metadata::PieceModel>>) -> Map<Seq<char>, Seq<crate::metadata::PieceModel>> {
    detect_effect(data, "Nikon"@, nikon_bytes(), "NikonMakerNote"@, m)
}

pub open spec fn olympus_effect(data: Seq<u8>, m: Map<Seq<char>, Seq<crate::metadata::PieceModel>>) -> Map<Seq<char>, Seq<crate::metadata::PieceModel>> {
    detect_effect(data, "Olympus"@, olympus_bytes(), "OlympusMakerNote"@, m)
}

pub open spec fn sony_effect(data: Seq<u8>, m: Map<Seq<char>, Seq<crate::metadata::PieceModel>>) -> Map<Seq<char>, Seq<crate::metadata::PieceModel>> {
    detect_effect(data, "Sony"@, sony_bytes(), "SonyMakerNote"@, m)
}

pub open spec fn fujifilm_effect(data: Seq<u8>, m: Map<Seq<char>, Seq<crate::metadata::PieceModel>>) -> Map<Seq<char>, Seq<crate::metadata::PieceModel>> {
    detect_effect(data, "Fujifilm"@, fujifilm_bytes(), "FujifilmMakerNote"@, m)
}

/// What a maker note adds when its maker is only known from the `Make` tag.
pub open spec fn make_fallback_effect(data: Seq<u8>, m: Map<Seq<char>, Seq<crate::metadata::PieceModel>>) -> Map<Seq<char>, Seq<crate::metadata::PieceModel>> {
    match crate::metadata::text_of(m, "Make"@) {
        Some(make) => {
            let l = str_lower_text(make);
            if contains_text(l, "canon"@) {
                canon_effect(data, m)
            } else if contains_text(l, "nikon"@) {
                nikon_effect(data, m)
            } else if contains_text(l, "olympus"@) {
                olympus_effect(data, m)
            } else if contains_text(l, "sony"@) {
                sony_effect(data, m)
            } else if contains_text(l, "samsung"@) {
                list_note_effect(ListBrand::Samsung, data, m)
            } else if contains_text(l, "ricoh"@) {
                list_note_effect(ListBrand::Ricoh, data, m)
            } else if contains_text(l, "fujifilm"@) {
                fujifilm_effect(data, m)
            } else {
                m
            }
        },
        None => m,
    }
}

/// What a maker note at `offset` adds: the maker is told by the bytes there,
/// else by the `Make` tag. A five-byte window never equals the four bytes of
/// `Sony`, so Sony notes are told by the `Make` tag only.
pub open spec fn maker_note_effect(data: Seq<u8>, offset: int, m: Map<Seq<char>, Seq<crate::metadata::PieceModel>>) -> Map<Seq<char>, Seq<crate::metadata::PieceModel>> {
    if offset + 10 > data.len() {
        m
    } else if bytes_match_at(data, offset, canon_bytes()) {
        canon_effect(data, m)
    } else if bytes_match_at(data, offset, nikon_bytes()) {
        nikon_effect(data, m)
    } else if bytes_match_at(data, offset, olympus_bytes()) {
        olympus_effect(data, m)
    } else if bytes_match_at(data, offset, samsung_bytes()) {
        list_note_effect(ListBrand::Samsung, data, m)
    } else if bytes_match_at(data, offset, ricoh_bytes()) {
        list_note_effect(ListBrand::Ricoh, data, m)
    } else if bytes_match_at(data, offset, fujifilm_bytes()) {
        fujifilm_effect(data, m)
    } else {
        make_fallback_effect(data, m)
    }
}

/// Whether `data[off..off+pat.len()]` equals `pat`.
pub(crate) fn matches_at(data: &[u8], off: usize, pat: &[u8]) -> (r: bool)
    ensures
        r == bytes_match_at(data@, off as int, pat@),
{
    if off > data.len() || pat.len() > data.len() - off {
        return false;
    }
    let mut i: usize = 0;
    while i < pat.len()
        invariant
            i <= pat@.len(),
            off + pat@.len() <= data@.len(),
            forall|j: int| 0 <= j < i ==> data@[off + j] == pat@[j],
        decreases pat.len() - i,
    {
        if data[off + i] != pat[i] {
            assert(data@.subrange(off as int, off + pat@.len())[i as int] != pat@[i as int]);
            return false;
        }
        i = i + 1;
    }
    assert(data@.subrange(off as int, off + pat@.len()) =~= pat@);
    true
}

/// Maker note parser for camera manufacturer specific data.
pub struct MakerNoteParser;

impl MakerNoteParser {
    /// Parse the maker note at `offset`.
    pub fn parse_maker_note(data: &[u8], offset: usize, _count: usize, metadata: &mut TagMap)
        ensures
            final(metadata)@ == maker_note_effect(data@, offset as int, old(metadata)@),
    {
        if offset > data.len() || data.len() - offset < 10 {
            return;
        }
        let canon: [u8; 5] = [67u8, 97u8, 110u8, 111u8, 110u8];
        let nikon: [u8; 5] = [78u8, 105u8, 107u8, 111u8, 110u8];
        let olympus: [u8; 7] = [79u8, 76u8, 89u8, 77u8, 80u8, 85u8, 83u8];
        let samsung: [u8; 7] = [83u8, 97u8, 109u8, 115u8, 117u8, 110u8, 103u8];
        let ricoh: [u8; 5] = [82u8, 73u8, 67u8, 79u8, 72u8];
        let fujifilm: [u8; 8] = [70u8, 85u8, 74u8, 73u8, 70u8, 73u8, 76u8, 77u8];
        assert(canon@ =~= canon_bytes());
        assert(nikon@ =~= nikon_bytes());
        assert(olympus@ =~= olympus_bytes());
        assert(samsung@ =~= samsung_bytes());
        assert(ricoh@ =~= ricoh_bytes());
        assert(fujifilm@ =~= fujifilm_bytes());
        if matches_at(data, offset, &canon) {
            Self::parse_canon_maker_note(data, metadata);
        } else if matches_at(data, offset, &nikon) {
            Self::parse_nikon_maker_note(data, metadata);
        } else if matches_at(data, offset, &olympus) {
            Self::parse_olympus_maker_note(data, metadata);
        } else if matches_at(data, offset, &samsung) {
            Self::parse_samsung_maker_note(data, metadata);
        } else if matches_at(data, offset, &ricoh) {
            Self::parse_ricoh_maker_note(data, metadata);
        } else if matches_at(data, offset, &fujifilm) {
            Self::parse_fujifilm_maker_note(data, metadata);
        } else {
            let make = match metadata.get_text("Make") {
                Some(m) => Some(lowercase_text(m.as_str())),
                None => None,
            };
            if let Some(l) = make {
                let l = l.as_str();
                if text_contains(l, "canon") {
                    Self::parse_canon_maker_note(data, metadata);
                } else if text_contains(l, "nikon") {
                    Self::parse_nikon_maker_note(data, metadata);
                } else if text_contains(l, "olympus") {
                    Self::parse_olympus_maker_note(data, metadata);
                } else if text_contains(l, "sony") {
                    Self::parse_sony_maker_note(data, metadata);
                } else if text_contains(l, "samsung") {
                    Self::parse_samsung_maker_note(data, metadata);
                } else if text_contains(l, "ricoh") {
                    Self::parse_ricoh_maker_note(data, metadata);
                } else if text_contains(l, "fujifilm") {
                    Self::parse_fujifilm_maker_note(data, metadata);
                }
            }
        }
    }

    /// Record a maker-note type, and a marker when `pat` occurs in `data`.
    pub(crate) fn note_detected(data: &[u8], kind_name: &str, pat: &[u8], key: &str, metadata: &mut TagMap)
        requires
            pat@.len() > 0,
        ensures
            final(metadata)@ == detect_effect(data@, kind_name@, pat@, key@, old(metadata)@),
    {
        metadata.insert_str("MakerNoteType", kind_name);
        if contains_bytes(data, pat) {
            metadata.insert_str(key, "Detected");
        }
    }

    /// Parse Canon maker note.
    pub(crate) fn parse_canon_maker_note(data: &[u8], metadata: &mut TagMap)
        ensures
            final(metadata)@ == canon_effect(data@, old(metadata)@),
    {
        let pat: [u8; 5] = [67u8, 97u8, 110u8, 111u8, 110u8];
        assert(pat@ =~= canon_bytes());
        Self::note_detected(data, "Canon", &pat, "CanonMakerNote", metadata);
    }

    /// Parse Nikon maker note.
    pub(crate) fn parse_nikon_maker_note(data: &[u8], metadata: &mut TagMap)
        ensures
            final(metadata)@ == nikon_effect(data@, old(metadata)@),
    {
        let pat: [u8; 5] = [78u8, 105u8, 107u8, 111u8, 110u8];
        assert(pat@ =~= nikon_bytes());
        Self::note_detected(data, "Nikon", &pat, "NikonMakerNote", metadata);
    }

    /// Parse Olympus maker note.
    pub(crate) fn parse_olympus_maker_note(data: &[u8], metadata: &mut TagMap)
        ensures
            final(metadata)@ == olympus_effect(data@, old(metadata)@),
    {
        let pat: [u8; 7] = [79u8, 76u8, 89u8, 77u8, 80u8, 85u8, 83u8];
        assert(pat@ =~= olympus_bytes());
        Self::note_detected(data, "Olympus", &pat, "OlympusMakerNote", metadata);
    }

    /// Parse Sony maker note.
    pub(crate) fn parse_sony_maker_note(data: &[u8], metadata: &mut TagMap)
        ensures
            final(metadata)@ == sony_effect(data@, old(metadata)@),
    {
        let pat: [u8; 4] = [83u8, 111u8, 110u8, 121u8];
        assert(pat@ =~= sony_bytes());
        Self::note_detected(data, "Sony", &pat, "SonyMakerNote", metadata);
    }

    /// Parse Fujifilm maker note.
    fn parse_fujifilm_maker_note(data: &[u8], metadata: &mut TagMap)
        ensures
            final(metadata)@ == fujifilm_effect(data@, old(metadata)@),
    {
        let pat: [u8; 8] = [70u8, 85u8, 74u8, 73u8, 70u8, 73u8, 76u8, 77u8];
        assert(pat@ =~= fujifilm_bytes());
        Self::note_detected(data, "Fujifilm", &pat, "FujifilmMakerNote", metadata);
    }

    /// Parse Samsung maker note (Galaxy S10 tag list).
    fn parse_samsung_maker_note(data: &[u8], metadata: &mut TagMap)
        ensures
            final(metadata)@ == list_note_effect(ListBrand::Samsung, data@, old(metadata)@),
    {
        Self::parse_tag_list(ListBrand::Samsung, data, metadata);
    }

    /// Parse Ricoh maker note (THETA V tag list).
    fn parse_ricoh_maker_note(data: &[u8], metadata: &mut TagMap)
        ensures
            final(metadata)@ == list_note_effect(ListBrand::Ricoh, data@, old(metadata)@),
    {
        Self::parse_tag_list(ListBrand::Ricoh, data, metadata);
    }

    /// Parse a maker note stored as a list of twelve-byte little-endian
    /// entries from the start of the buffer, at most fifty of them.
    pub(crate) fn parse_tag_list(brand: ListBrand, data: &[u8], metadata: &mut TagMap)
        ensures
            final(metadata)@ == list_note_effect(brand, data@, old(metadata)@),
    {
        match brand {
            ListBrand::Samsung => metadata.insert_str("MakerNoteType", "Samsung"),
            ListBrand::Ricoh => metadata.insert_str("MakerNoteType", "Ricoh"),
            ListBrand::Canon => metadata.insert_str("MakerNoteType", "Canon"),
        }
        if data.len() < 12 {
            return;
        }
        let ghost m1 = metadata@;
        let mut pos: usize = 0;
        let mut entry_count: usize = 0;
        while pos + 12 <= data.len() && entry_count < 50
            invariant
                pos == entry_count * 12,
                entry_count <= 50,
                pos <= data@.len(),
                metadata@ == list_entries_effect(brand, data@, entry_count as nat, m1),
            decreases 50 - entry_count,
        {
            let tag_id = read_u16(data, pos, true);
            let data_type = read_u16(data, pos + 2, true);
            let count_val = read_u32(data, pos + 4, true);
            let value_offset = read_u32(data, pos + 8, true);
            Self::parse_list_tag(brand, data, tag_id, data_type, count_val, value_offset, metadata);
            pos = pos + 12;
            entry_count = entry_count + 1;
        }
        assert(entry_count as nat == if data@.len() / 12 < 50 { data@.len() / 12 } else { 50 });
    }

    /// Parse one maker-note tag entry.
    pub(crate) fn parse_list_tag(
        brand: ListBrand,
        data: &[u8],
        tag_id: u16,
        data_type: u16,
        count: u32,
        value_offset: u32,
        metadata: &mut TagMap,
    )
        ensures
            final(metadata)@ == list_tag_effect(brand, data@, tag_id, data_type, count, value_offset, old(metadata)@),
    {
        let tag_name = match brand {
            ListBrand::Samsung => samsung_tag_name_text(tag_id),
            ListBrand::Ricoh => ricoh_tag_name_text(tag_id),
            ListBrand::Canon => canon_tag_name_text(tag_id),
        };
        if data_type == 1 {
            if count <= 4 {
                metadata.insert_text(tag_name.as_str(), u64_text((value_offset % 256) as u64));
            } else {
                if let Some(t) = read_text_at(data, value_offset as usize, count as usize) {
                    metadata.insert_text(tag_name.as_str(), t);
                }
            }
        } else if data_type == 3 {
            if count == 1 {
                metadata.insert_text(tag_name.as_str(), u64_text((value_offset % 65536) as u64));
            }
        } else if data_type == 5 {
            let off = value_offset as usize;
            if off <= data.len() && data.len() - off >= 8 {
                let numerator = read_u32(data, off, true);
                let denominator = read_u32(data, off + 4, true);
                if denominator != 0 {
                    metadata.insert_number(
                        tag_name.as_str(),
                        Real { num: numerator as i64, den: denominator as u64, style: RealStyle::Fixed(2) },
                    );
                } else {
                    metadata.insert_text(tag_name.as_str(), u64_text(numerator as u64));
                }
            }
        } else {
            metadata.insert_text(tag_name.as_str(), u64_text(value_offset as u64));
        }
    }
}

} // verus!

verus! {

/// A maker note whose bytes start with `Nikon` is read as a Nikon note: its
/// type is `Nikon` and the Nikon note is marked as detected.
pub proof fn law_nikon_note_is_nikon(data: Seq<u8>, offset: int, m: Map<Seq<char>, Seq<crate::metadata::PieceModel>>)
    requires
        0 <= offset,
        offset + 10 <= data.len(),
        data[offset] == 78 && data[offset + 1] == 105 && data[offset + 2] == 107 && data[offset + 3] == 111
            && data[offset + 4] == 110,
    ensures
        maker_note_effect(data, offset, m).contains_key("MakerNoteType"@),
        maker_note_effect(data, offset, m)["MakerNoteType"@] == txt("Nikon"@),
        maker_note_effect(data, offset, m).contains_key("NikonMakerNote"@),
        maker_note_effect(data, offset, m)["NikonMakerNote"@] == txt("Detected"@),
{
    assert(data.subrange(offset, offset + 5) =~= nikon_bytes());
    assert(bytes_match_at(data, offset, nikon_bytes()));
    assert(!bytes_match_at(data, offset, canon_bytes())) by {
        assert(data.subrange(offset, offset + 5)[0] == 78);
    }
    reveal_strlit("MakerNoteType");
    reveal_strlit("NikonMakerNote");
    assert("MakerNoteType"@.len() != "NikonMakerNote"@.len());
}

} // verus!
