//! Return codes of the Speech Synthesis Interface Protocol.
//!
//! A reply starts with a three-digit code: `2xx` reports success, `3xx` a
//! server error, `4xx` a client error, `5xx` a malformed request and `7xx`
//! a notification event.

use vstd::prelude::*;

verus! {

/// Return code of a reply.
pub type ReturnCode = u16;

/// Success, sent as `OK LANGUAGE SET`.
pub const OK_LANGUAGE_SET: ReturnCode = 201;

/// Success, sent as `OK PRIORITY SET`.
pub const OK_PRIORITY_SET: ReturnCode = 202;

/// Success, sent as `OK RATE SET`.
pub const OK_RATE_SET: ReturnCode = 203;

/// Success, sent as `OK PITCH SET`.
pub const OK_PITCH_SET: ReturnCode = 204;

/// Success, sent as `OK PUNCTUATION SET`.
pub const OK_PUNCTUATION_SET: ReturnCode = 205;

/// Success, sent as `OK CAP LET RECOGNITION SET`.
pub const OK_CAP_LET_RECOGN_SET: ReturnCode = 206;

/// Success, sent as `OK SPELLING SET`.
pub const OK_SPELLING_SET: ReturnCode = 207;

/// Success, sent as `OK CLIENT NAME SET`.
pub const OK_CLIENT_NAME_SET: ReturnCode = 208;

/// Success, sent as `OK VOICE SET`.
pub const OK_VOICE_SET: ReturnCode = 209;

/// Success, sent as `OK STOPPED`.
pub const OK_STOPPED: ReturnCode = 210;

/// Success, sent as `OK PAUSED`.
pub const OK_PAUSED: ReturnCode = 211;

/// Success, sent as `OK RESUMED`.
pub const OK_RESUMED: ReturnCode = 212;

/// Success, sent as `OK CANCELED`.
pub const OK_CANCELED: ReturnCode = 213;

/// Success, sent as `OK TABLE SET`.
pub const OK_TABLE_SET: ReturnCode = 215;

/// Success, sent as `OK OUTPUT MODULE SET`.
pub const OK_OUTPUT_MODULE_SET: ReturnCode = 216;

/// Success, sent as `OK PAUSE CONTEXT SET`.
pub const OK_PAUSE_CONTEXT_SET: ReturnCode = 217;

/// Success, sent as `OK VOLUME SET`.
pub const OK_VOLUME_SET: ReturnCode = 218;

/// Success, sent as `OK SSML MODE SET`.
pub const OK_SSML_MODE_SET: ReturnCode = 219;

/// Success, sent as `OK NOTIFICATION SET`.
pub const OK_NOTIFICATION_SET: ReturnCode = 220;

/// Success, sent as `OK CURSOR SET FIRST`.
pub const OK_CUR_SET_FIRST: ReturnCode = 220;

/// Success, sent as `OK CURSOR SET LAST`.
pub const OK_CUR_SET_LAST: ReturnCode = 221;

/// Success, sent as `OK CURSOR SET TO POSITION`.
pub const OK_CUR_SET_POS: ReturnCode = 222;

/// Success, sent as `OK CURSOR MOVED FORWARD`.
pub const OK_CUR_MOV_FOR: ReturnCode = 223;

/// Success, sent as `OK CURSOR MOVED BACKWARD`.
pub const OK_CUR_MOV_BACK: ReturnCode = 224;

/// Success, sent as `OK MESSAGE QUEUED`.
pub const OK_MESSAGE_QUEUED: ReturnCode = 225;

/// Success, sent as `OK SOUND ICON QUEUED`.
pub const OK_SND_ICON_QUEUED: ReturnCode = 226;

/// Success, sent as `OK MESSAGE CANCELED`.
pub const OK_MSG_CANCELED: ReturnCode = 227;

/// Success, sent as `OK RECEIVING DATA`.
pub const OK_RECEIVING_DATA: ReturnCode = 230;

/// Success, sent as `HAPPY HACKING`.
pub const OK_BYE: ReturnCode = 231;

/// Success, sent as `OK CLIENTS LIST SENT`.
pub const OK_CLIENTS_LIST_SENT: ReturnCode = 240;

/// Success, sent as `OK MSGS LIST SENT`.
pub const OK_MSGS_LIST_SENT: ReturnCode = 241;

/// Success, sent as `OK LAST MSG SAID`.
pub const OK_LAST_MSG: ReturnCode = 242;

/// Success, sent as `OK CURSOR POSITION RETURNED`.
pub const OK_CUR_POS_RET: ReturnCode = 243;

/// Success, sent as `OK TABLE LIST SEND`.
pub const OK_TABLE_LIST_SENT: ReturnCode = 244;

/// Success, sent as `OK CLIENT ID SENT`.
pub const OK_CLIENT_ID_SENT: ReturnCode = 245;

/// Success, sent as `OK MESSAGE TEXT SENT`.
pub const OK_MSG_TEXT_SENT: ReturnCode = 246;

/// Success, sent as `OK HELP SENT`.
pub const OK_HELP_SENT: ReturnCode = 248;

/// Success, sent as `OK VOICE LIST SENT`.
pub const OK_VOICES_LIST_SENT: ReturnCode = 249;

/// Success, sent as `OK MODULE LIST SENT`.
pub const OK_OUTPUT_MODULES_LIST_SENT: ReturnCode = 250;

/// Success, sent as `OK GET RETURNED`.
pub const OK_GET: ReturnCode = 251;

/// Success, sent as `OK INSIDE BLOCK`.
pub const OK_INSIDE_BLOCK: ReturnCode = 260;

/// Success, sent as `OK OUTSIDE BLOCK`.
pub const OK_OUTSIDE_BLOCK: ReturnCode = 261;

/// Success, sent as `OK DEBUGGING SET`.
pub const OK_DEBUG_SET: ReturnCode = 262;

/// Success, sent as `OK PITCH RANGE SET`.
pub const OK_PITCH_RANGE_SET: ReturnCode = 263;

/// Success, sent as `OK BUT NOT IMPLEMENTED -- DOES NOTHING`.
pub const OK_NOT_IMPLEMENTED: ReturnCode = 299;

/// Server error, sent as `ERR INTERNAL`.
pub const ERR_INTERNAL: ReturnCode = 300;

/// Server error, sent as `ERR COULDNT SET PRIORITY`.
pub const ERR_COULDNT_SET_PRIORITY: ReturnCode = 301;

/// Server error, sent as `ERR COULDNT SET LANGUAGE`.
pub const ERR_COULDNT_SET_LANGUAGE: ReturnCode = 302;

/// Server error, sent as `ERR COULDNT SET RATE`.
pub const ERR_COULDNT_SET_RATE: ReturnCode = 303;

/// Server error, sent as `ERR COULDNT SET PITCH`.
pub const ERR_COULDNT_SET_PITCH: ReturnCode = 304;

/// Server error, sent as `ERR COULDNT SET PUNCT MODE`.
pub const ERR_COULDNT_SET_PUNCTUATION: ReturnCode = 305;

/// Server error, sent as `ERR COULDNT SET CAP LET RECOGNITION`.
pub const ERR_COULDNT_SET_CAP_LET_RECOG: ReturnCode = 306;

/// Server error, sent as `ERR COULDNT SET SPELLING`.
pub const ERR_COULDNT_SET_SPELLING: ReturnCode = 308;

/// Server error, sent as `ERR COULDNT SET VOICE`.
pub const ERR_COULDNT_SET_VOICE: ReturnCode = 309;

/// Server error, sent as `ERR COULDNT SET TABLE`.
pub const ERR_COULDNT_SET_TABLE: ReturnCode = 310;

/// Server error, sent as `ERR COULDNT SET CLIENT_NAME`.
pub const ERR_COULDNT_SET_CLIENT_NAME: ReturnCode = 311;

/// Server error, sent as `ERR COULDNT SET OUTPUT MODULE`.
pub const ERR_COULDNT_SET_OUTPUT_MODULE: ReturnCode = 312;

/// Server error, sent as `ERR COULDNT SET PAUSE CONTEXT`.
pub const ERR_COULDNT_SET_PAUSE_CONTEXT: ReturnCode = 313;

/// Server error, sent as `ERR COULDNT SET VOLUME`.
pub const ERR_COULDNT_SET_VOLUME: ReturnCode = 314;

/// Server error, sent as `ERR COULDNT SET SSML MODE`.
pub const ERR_COULDNT_SET_SSML_MODE: ReturnCode = 315;

/// Server error, sent as `ERR COULDNT SET NOTIFICATION`.
pub const ERR_COULDNT_SET_NOTIFICATION: ReturnCode = 316;

/// Server error, sent as `ERR COULDNT SET DEBUGGING`.
pub const ERR_COULDNT_SET_DEBUG: ReturnCode = 317;

/// Server error, sent as `ERR NO SOUND ICONS`.
pub const ERR_NO_SND_ICONS: ReturnCode = 320;

/// Server error, sent as `ERR MODULE CANT REPORT VOICES`.
pub const ERR_CANT_REPORT_VOICES: ReturnCode = 321;

/// Server error, sent as `ERR NO OUTPUT MODULE LOADED`.
pub const ERR_NO_OUTPUT_MODULE: ReturnCode = 321;

/// Server error, sent as `ERR ALREADY INSIDE BLOCK`.
pub const ERR_ALREADY_INSIDE_BLOCK: ReturnCode = 330;

/// Server error, sent as `ERR ALREADY OUTSIDE BLOCK`.
pub const ERR_ALREADY_OUTSIDE_BLOCK: ReturnCode = 331;

/// Server error, sent as `ERR NOT ALLOWED INSIDE BLOCK`.
pub const ERR_NOT_ALLOWED_INSIDE_BLOCK: ReturnCode = 332;

/// Server error, sent as `ERR COULDNT SET PITCH RANGE`.
pub const ERR_COULDNT_SET_PITCH_RANGE: ReturnCode = 340;

/// Server error, sent as `ERR NOT YET IMPLEMENTED`.
pub const ERR_NOT_IMPLEMENTED: ReturnCode = 380;

/// Client error, sent as `ERR NO CLIENT`.
pub const ERR_NO_CLIENT: ReturnCode = 401;

/// Client error, sent as `ERR NO SUCH CLIENT`.
pub const ERR_NO_SUCH_CLIENT: ReturnCode = 402;

/// Client error, sent as `ERR NO MESSAGE`.
pub const ERR_NO_MESSAGE: ReturnCode = 403;

/// Client error, sent as `ERR POSITION TOO LOW`.
pub const ERR_POS_LOW: ReturnCode = 404;

/// Client error, sent as `ERR POSITION TOO HIGH`.
pub const ERR_POS_HIGH: ReturnCode = 405;

/// Client error, sent as `ERR ID DOESNT EXIST`.
pub const ERR_ID_NOT_EXIST: ReturnCode = 406;

/// Client error, sent as `ERR UNKNOWN ICON`.
pub const ERR_UNKNOWN_ICON: ReturnCode = 407;

/// Client error, sent as `ERR UNKNOWN PRIORITY`.
pub const ERR_UNKNOWN_PRIORITY: ReturnCode = 408;

/// Client error, sent as `ERR RATE TOO HIGH`.
pub const ERR_RATE_TOO_HIGH: ReturnCode = 409;

/// Client error, sent as `ERR RATE TOO LOW`.
pub const ERR_RATE_TOO_LOW: ReturnCode = 410;

/// Client error, sent as `ERR PITCH TOO HIGH`.
pub const ERR_PITCH_TOO_HIGH: ReturnCode = 411;

/// Client error, sent as `ERR PITCH TOO LOW`.
pub const ERR_PITCH_TOO_LOW: ReturnCode = 412;

/// Client error, sent as `ERR VOLUME TOO HIGH`.
pub const ERR_VOLUME_TOO_HIGH: ReturnCode = 413;

/// Client error, sent as `ERR VOLUME TOO LOW`.
pub const ERR_VOLUME_TOO_LOW: ReturnCode = 414;

/// Client error, sent as `ERR PITCH RANGE TOO HIGH`.
pub const ERR_PITCH_RANGE_TOO_HIGH: ReturnCode = 415;

/// Client error, sent as `ERR PITCH RANGE TOO LOW`.
pub const ERR_PITCH_RANGE_TOO_LOW: ReturnCode = 416;

/// Request error, sent as `ERR INVALID COMMAND`.
pub const ERR_INVALID_COMMAND: ReturnCode = 500;

/// Request error, sent as `ERR INVALID ENCODING`.
pub const ERR_INVALID_ENCODING: ReturnCode = 501;

/// Request error, sent as `ERR MISSING PARAMETER`.
pub const ERR_MISSING_PARAMETER: ReturnCode = 510;

/// Request error, sent as `ERR PARAMETER NOT A NUMBER`.
pub const ERR_NOT_A_NUMBER: ReturnCode = 511;

/// Request error, sent as `ERR PARAMETER NOT A STRING`.
pub const ERR_NOT_A_STRING: ReturnCode = 512;

/// Request error, sent as `ERR PARAMETER NOT ON OR OFF`.
pub const ERR_PARAMETER_NOT_ON_OFF: ReturnCode = 513;

/// Request error, sent as `ERR PARAMETER INVALID`.
pub const ERR_PARAMETER_INVALID: ReturnCode = 514;

/// Event, sent as `INDEX MARK`.
pub const EVENT_INDEX_MARK: ReturnCode = 700;

/// Event, sent as `BEGIN`.
pub const EVENT_BEGIN: ReturnCode = 701;

/// Event, sent as `END`.
pub const EVENT_END: ReturnCode = 702;

/// Event, sent as `CANCELED`.
pub const EVENT_CANCELED: ReturnCode = 703;

/// Event, sent as `PAUSED`.
pub const EVENT_PAUSED: ReturnCode = 704;

/// Event, sent as `RESUMED`.
pub const EVENT_RESUMED: ReturnCode = 705;

/// First code of the failure range.
pub const FIRST_ERROR: ReturnCode = 300;

/// First code after the failure range.
pub const FIRST_EVENT: ReturnCode = 700;

/// A code in `[300, 700)` reports a failure.
pub open spec fn is_error_code(code: ReturnCode) -> bool {
    FIRST_ERROR <= code < FIRST_EVENT
}

/// A code in `[700, 705]` announces a notification event.
pub open spec fn is_event_code(code: ReturnCode) -> bool {
    EVENT_INDEX_MARK <= code <= EVENT_RESUMED
}

/// Tells whether `code` reports a failure.
pub fn is_error(code: ReturnCode) -> (failure: bool)
    ensures
        failure == is_error_code(code),
{
    FIRST_ERROR <= code && code < FIRST_EVENT
}

/// Tells whether `code` announces a notification event.
pub fn is_event(code: ReturnCode) -> (event: bool)
    ensures
        event == is_event_code(code),
{
    EVENT_INDEX_MARK <= code && code <= EVENT_RESUMED
}

} // verus!
