//! Android key codes, as `adb shell input keyevent` names them.
use vstd::prelude::*;

verus! {

/// A key of an Android input device, named as in `android.view.KeyEvent`.
#[allow(non_camel_case_types)]
#[derive(Debug, Clone, Copy, PartialEq, Eq, Structural, Hash)]
pub enum KeyCode {
    KEYCODE_0,
    KEYCODE_11,
    KEYCODE_12,
    KEYCODE_1,
    KEYCODE_2,
    KEYCODE_3,
    KEYCODE_3D_MODE,
    KEYCODE_4,
    KEYCODE_5,
    KEYCODE_6,
    KEYCODE_7,
    KEYCODE_8,
    KEYCODE_9,
    KEYCODE_A,
    KEYCODE_ALL_APPS,
    KEYCODE_ALT_LEFT,
    KEYCODE_ALT_RIGHT,
    KEYCODE_APOSTROPHE,
    KEYCODE_APP_SWITCH,
    KEYCODE_ASSIST,
    KEYCODE_AT,
    KEYCODE_AVR_INPUT,
    KEYCODE_AVR_POWER,
    KEYCODE_B,
    KEYCODE_BACK,
    KEYCODE_BACKSLASH,
    KEYCODE_BOOKMARK,
    KEYCODE_BREAK,
    KEYCODE_BRIGHTNESS_DOWN,
    KEYCODE_BRIGHTNESS_UP,
    KEYCODE_BUTTON_10,
    KEYCODE_BUTTON_11,
    KEYCODE_BUTTON_12,
    KEYCODE_BUTTON_13,
    KEYCODE_BUTTON_14,
    KEYCODE_BUTTON_15,
    KEYCODE_BUTTON_16,
    KEYCODE_BUTTON_1,
    KEYCODE_BUTTON_2,
    KEYCODE_BUTTON_3,
    KEYCODE_BUTTON_4,
    KEYCODE_BUTTON_5,
    KEYCODE_BUTTON_6,
    KEYCODE_BUTTON_7,
    KEYCODE_BUTTON_8,
    KEYCODE_BUTTON_9,
    KEYCODE_BUTTON_A,
    KEYCODE_BUTTON_B,
    KEYCODE_BUTTON_C,
    KEYCODE_BUTTON_L1,
    KEYCODE_BUTTON_L2,
    KEYCODE_BUTTON_MODE,
    KEYCODE_BUTTON_R1,
    KEYCODE_BUTTON_R2,
    KEYCODE_BUTTON_SELECT,
    KEYCODE_BUTTON_START,
    KEYCODE_BUTTON_THUMBL,
    KEYCODE_BUTTON_THUMBR,
    KEYCODE_BUTTON_X,
    KEYCODE_BUTTON_Y,
    KEYCODE_BUTTON_Z,
    KEYCODE_C,
    KEYCODE_CALCULATOR,
    KEYCODE_CALENDAR,
    KEYCODE_CALL,
    KEYCODE_CAMERA,
    KEYCODE_CAPS_LOCK,
    KEYCODE_CAPTIONS,
    KEYCODE_CHANNEL_DOWN,
    KEYCODE_CHANNEL_UP,
    KEYCODE_CLEAR,
    KEYCODE_COMMA,
    KEYCODE_CONTACTS,
    KEYCODE_COPY,
    KEYCODE_CTRL_LEFT,
    KEYCODE_CTRL_RIGHT,
    KEYCODE_CUT,
    KEYCODE_D,
    KEYCODE_DEL,
    KEYCODE_DPAD_CENTER,
    KEYCODE_DPAD_DOWN,
    KEYCODE_DPAD_DOWN_LEFT,
    KEYCODE_DPAD_DOWN_RIGHT,
    KEYCODE_DPAD_LEFT,
    KEYCODE_DPAD_RIGHT,
    KEYCODE_DPAD_UP,
    KEYCODE_DPAD_UP_LEFT,
    KEYCODE_DPAD_UP_RIGHT,
    KEYCODE_DVR,
    KEYCODE_E,
    KEYCODE_EISU,
    KEYCODE_ENDCALL,
    KEYCODE_ENTER,
    KEYCODE_ENVELOPE,
    KEYCODE_EQUALS,
    KEYCODE_ESCAPE,
    KEYCODE_EXPLORER,
    KEYCODE_F10,
    KEYCODE_F11,
    KEYCODE_F12,
    KEYCODE_F1,
    KEYCODE_F2,
    KEYCODE_F3,
    KEYCODE_F4,
    KEYCODE_F5,
    KEYCODE_F6,
    KEYCODE_F7,
    KEYCODE_F8,
    KEYCODE_F9,
    KEYCODE_F,
    KEYCODE_FOCUS,
    KEYCODE_FORWARD,
    KEYCODE_FORWARD_DEL,
    KEYCODE_FUNCTION,
    KEYCODE_G,
    KEYCODE_GRAVE,
    KEYCODE_GUIDE,
    KEYCODE_H,
    KEYCODE_HEADSETHOOK,
    KEYCODE_HELP,
    KEYCODE_HENKAN,
    KEYCODE_HOME,
    KEYCODE_I,
    KEYCODE_INFO,
    KEYCODE_INSERT,
    KEYCODE_J,
    KEYCODE_K,
    KEYCODE_KANA,
    KEYCODE_KATAKANA_HIRAGANA,
    KEYCODE_L,
    KEYCODE_LANGUAGE_SWITCH,
    KEYCODE_LAST_CHANNEL,
    KEYCODE_LEFT_BRACKET,
    KEYCODE_M,
    KEYCODE_MANNER_MODE,
    KEYCODE_MEDIA_AUDIO_TRACK,
    KEYCODE_MEDIA_CLOSE,
    KEYCODE_MEDIA_EJECT,
    KEYCODE_MEDIA_FAST_FORWARD,
    KEYCODE_MEDIA_NEXT,
    KEYCODE_MEDIA_PAUSE,
    KEYCODE_MEDIA_PLAY,
    KEYCODE_MEDIA_PLAY_PAUSE,
    KEYCODE_MEDIA_PREVIOUS,
    KEYCODE_MEDIA_RECORD,
    KEYCODE_MEDIA_REWIND,
    KEYCODE_FAST_FORWARD,
    KEYCODE_MEDIA_SKIP_BACKWARD,
    KEYCODE_MEDIA_SKIP_FORWARD,
    KEYCODE_MEDIA_STEP_BACKWARD,
    KEYCODE_MEDIA_STEP_FORWARD,
    KEYCODE_MEDIA_STOP,
    KEYCODE_MEDIA_TOP_MENU,
    KEYCODE_MENU,
    KEYCODE_META_LEFT,
    KEYCODE_META_RIGHT,
    KEYCODE_MINUS,
    KEYCODE_MOVE_END,
    KEYCODE_MOVE_HOME,
    KEYCODE_MUHENKAN,
    KEYCODE_MUSIC,
    KEYCODE_MUTE,
    KEYCODE_N,
    KEYCODE_NAVIGATE_IN,
    KEYCODE_NAVIGATE_NEXT,
    KEYCODE_NAVIGATE_OUT,
    KEYCODE_NAVIGATE_PREVIOUS,
    KEYCODE_NOTIFICATION,
    KEYCODE_NUM,
    KEYCODE_NUM_LOCK,
    KEYCODE_NUMPAD_0,
    KEYCODE_NUMPAD_1,
    KEYCODE_NUMPAD_2,
    KEYCODE_NUMPAD_3,
    KEYCODE_NUMPAD_4,
    KEYCODE_NUMPAD_5,
    KEYCODE_NUMPAD_6,
    KEYCODE_NUMPAD_7,
    KEYCODE_NUMPAD_8,
    KEYCODE_NUMPAD_9,
    KEYCODE_NUMPAD_ADD,
    KEYCODE_NUMPAD_COMMA,
    KEYCODE_NUMPAD_DIVIDE,
    KEYCODE_NUMPAD_DOT,
    KEYCODE_NUMPAD_ENTER,
    KEYCODE_NUMPAD_EQUALS,
    KEYCODE_NUMPAD_LEFT_PAREN,
    KEYCODE_NUMPAD_MULTIPLY,
    KEYCODE_NUMPAD_RIGHT_PAREN,
    KEYCODE_NUMPAD_SUBTRACT,
    KEYCODE_O,
    KEYCODE_P,
    KEYCODE_PAGE_DOWN,
    KEYCODE_PAGE_UP,
    KEYCODE_PAIRING,
    KEYCODE_PASTE,
    KEYCODE_PERIOD,
    KEYCODE_PICTSYMBOLS,
    KEYCODE_PLUS,
    KEYCODE_POUND,
    KEYCODE_POWER,
    KEYCODE_PROFILE_SWITCH,
    KEYCODE_PROG_BLUE,
    KEYCODE_PROG_GREEN,
    KEYCODE_PROG_RED,
    KEYCODE_PROG_YELLOW,
    KEYCODE_Q,
    KEYCODE_R,
    KEYCODE_REFRESH,
    KEYCODE_RIGHT_BRACKET,
    KEYCODE_RO,
    KEYCODE_S,
    KEYCODE_SCROLL_LOCK,
    KEYCODE_SEARCH,
    KEYCODE_SEMICOLON,
    KEYCODE_SETTINGS,
    KEYCODE_SHIFT_LEFT,
    KEYCODE_SHIFT_RIGHT,
    KEYCODE_SLASH,
    KEYCODE_SLEEP,
    KEYCODE_SOFT_LEFT,
    KEYCODE_SOFT_RIGHT,
    KEYCODE_SOFT_SLEEP,
    KEYCODE_SPACE,
    KEYCODE_STAR,
    KEYCODE_STB_INPUT,
    KEYCODE_STB_POWER,
    KEYCODE_STEM_1,
    KEYCODE_STEM_2,
    KEYCODE_STEM_3,
    KEYCODE_STEM_PRIMARY,
    KEYCODE_SWITCH_CHARSET,
    KEYCODE_SYM,
    KEYCODE_SYSRQ,
    KEYCODE_SYSTEM_NAVIGATION_DOWN,
    KEYCODE_SYSTEM_NAVIGATION_LEFT,
    KEYCODE_SYSTEM_NAVIGATION_RIGHT,
    KEYCODE_SYSTEM_NAVIGATION_UP,
    KEYCODE_T,
    KEYCODE_TAB,
    KEYCODE_THUMBS_DOWN,
    KEYCODE_THUMBS_UP,
    KEYCODE_TV,
    KEYCODE_TV_ANTENNA_CABLE,
    KEYCODE_TV_AUDIO_DESCRIPTION,
    KEYCODE_TV_AUDIO_DESCRIPTION_MIX_DOWN,
    KEYCODE_TV_AUDIO_DESCRIPTION_MIX_UP,
    KEYCODE_TV_CONTENTS_MENU,
    KEYCODE_TV_DATA_SERVICE,
    KEYCODE_TV_INPUT,
    KEYCODE_TV_INPUT_COMPONENT_1,
    KEYCODE_TV_INPUT_COMPONENT_2,
    KEYCODE_TV_INPUT_COMPOSITE_1,
    KEYCODE_TV_INPUT_COMPOSITE_2,
    KEYCODE_TV_INPUT_HDMI_1,
    KEYCODE_TV_INPUT_HDMI_2,
    KEYCODE_TV_INPUT_HDMI_3,
    KEYCODE_TV_INPUT_HDMI_4,
    KEYCODE_TV_INPUT_VGA_1,
    KEYCODE_TV_MEDIA_CONTEXT_MENU,
    KEYCODE_TV_NETWORK,
    KEYCODE_TV_NUMBER_ENTRY,
    KEYCODE_TV_POWER,
    KEYCODE_TV_RADIO_SERVICE,
    KEYCODE_TV_SATELLITE,
    KEYCODE_TV_SATELLITE_BS,
    KEYCODE_TV_SATELLITE_CS,
    KEYCODE_TV_SATELLITE_SERVICE,
    KEYCODE_TV_TELETEXT,
    KEYCODE_TV_TERRESTRIAL_ANALOG,
    KEYCODE_TV_TERRESTRIAL_DIGITAL,
    KEYCODE_TV_TIMER_PROGRAMMING,
    KEYCODE_TV_ZOOM_MODE,
    KEYCODE_U,
    KEYCODE_UNKNOWN,
    KEYCODE_V,
    KEYCODE_VOICE_ASSIST,
    KEYCODE_VOLUME_DOWN,
    KEYCODE_VOLUME_MUTE,
    KEYCODE_VOLUME_UP,
    KEYCODE_W,
    KEYCODE_WAKEUP,
    KEYCODE_WINDOW,
    KEYCODE_X,
    KEYCODE_Y,
    KEYCODE_YEN,
    KEYCODE_Z,
    KEYCODE_ZENKAKU_HANKAKU,
    KEYCODE_ZOOM_IN,
    KEYCODE_ZOOM_OUT,
}

/// The name of a key code, the variant's own name.
pub open spec fn keycode_name(k: KeyCode) -> Seq<char> {
    match k {
        KeyCode::KEYCODE_0 => "KEYCODE_0"@,
        KeyCode::KEYCODE_11 => "KEYCODE_11"@,
        KeyCode::KEYCODE_12 => "KEYCODE_12"@,
        KeyCode::KEYCODE_1 => "KEYCODE_1"@,
        KeyCode::KEYCODE_2 => "KEYCODE_2"@,
        KeyCode::KEYCODE_3 => "KEYCODE_3"@,
        KeyCode::KEYCODE_3D_MODE => "KEYCODE_3D_MODE"@,
        KeyCode::KEYCODE_4 => "KEYCODE_4"@,
        KeyCode::KEYCODE_5 => "KEYCODE_5"@,
        KeyCode::KEYCODE_6 => "KEYCODE_6"@,
        KeyCode::KEYCODE_7 => "KEYCODE_7"@,
        KeyCode::KEYCODE_8 => "KEYCODE_8"@,
        KeyCode::KEYCODE_9 => "KEYCODE_9"@,
        KeyCode::KEYCODE_A => "KEYCODE_A"@,
        KeyCode::KEYCODE_ALL_APPS => "KEYCODE_ALL_APPS"@,
        KeyCode::KEYCODE_ALT_LEFT => "KEYCODE_ALT_LEFT"@,
        KeyCode::KEYCODE_ALT_RIGHT => "KEYCODE_ALT_RIGHT"@,
        KeyCode::KEYCODE_APOSTROPHE => "KEYCODE_APOSTROPHE"@,
        KeyCode::KEYCODE_APP_SWITCH => "KEYCODE_APP_SWITCH"@,
        KeyCode::KEYCODE_ASSIST => "KEYCODE_ASSIST"@,
        KeyCode::KEYCODE_AT => "KEYCODE_AT"@,
        KeyCode::KEYCODE_AVR_INPUT => "KEYCODE_AVR_INPUT"@,
        KeyCode::KEYCODE_AVR_POWER => "KEYCODE_AVR_POWER"@,
        KeyCode::KEYCODE_B => "KEYCODE_B"@,
        KeyCode::KEYCODE_BACK => "KEYCODE_BACK"@,
        KeyCode::KEYCODE_BACKSLASH => "KEYCODE_BACKSLASH"@,
        KeyCode::KEYCODE_BOOKMARK => "KEYCODE_BOOKMARK"@,
        KeyCode::KEYCODE_BREAK => "KEYCODE_BREAK"@,
        KeyCode::KEYCODE_BRIGHTNESS_DOWN => "KEYCODE_BRIGHTNESS_DOWN"@,
        KeyCode::KEYCODE_BRIGHTNESS_UP => "KEYCODE_BRIGHTNESS_UP"@,
        KeyCode::KEYCODE_BUTTON_10 => "KEYCODE_BUTTON_10"@,
        KeyCode::KEYCODE_BUTTON_11 => "KEYCODE_BUTTON_11"@,
        KeyCode::KEYCODE_BUTTON_12 => "KEYCODE_BUTTON_12"@,
        KeyCode::KEYCODE_BUTTON_13 => "KEYCODE_BUTTON_13"@,
        KeyCode::KEYCODE_BUTTON_14 => "KEYCODE_BUTTON_14"@,
        KeyCode::KEYCODE_BUTTON_15 => "KEYCODE_BUTTON_15"@,
        KeyCode::KEYCODE_BUTTON_16 => "KEYCODE_BUTTON_16"@,
        KeyCode::KEYCODE_BUTTON_1 => "KEYCODE_BUTTON_1"@,
        KeyCode::KEYCODE_BUTTON_2 => "KEYCODE_BUTTON_2"@,
        KeyCode::KEYCODE_BUTTON_3 => "KEYCODE_BUTTON_3"@,
        KeyCode::KEYCODE_BUTTON_4 => "KEYCODE_BUTTON_4"@,
        KeyCode::KEYCODE_BUTTON_5 => "KEYCODE_BUTTON_5"@,
        KeyCode::KEYCODE_BUTTON_6 => "KEYCODE_BUTTON_6"@,
        KeyCode::KEYCODE_BUTTON_7 => "KEYCODE_BUTTON_7"@,
        KeyCode::KEYCODE_BUTTON_8 => "KEYCODE_BUTTON_8"@,
        KeyCode::KEYCODE_BUTTON_9 => "KEYCODE_BUTTON_9"@,
        KeyCode::KEYCODE_BUTTON_A => "KEYCODE_BUTTON_A"@,
        KeyCode::KEYCODE_BUTTON_B => "KEYCODE_BUTTON_B"@,
        KeyCode::KEYCODE_BUTTON_C => "KEYCODE_BUTTON_C"@,
        KeyCode::KEYCODE_BUTTON_L1 => "KEYCODE_BUTTON_L1"@,
        KeyCode::KEYCODE_BUTTON_L2 => "KEYCODE_BUTTON_L2"@,
        KeyCode::KEYCODE_BUTTON_MODE => "KEYCODE_BUTTON_MODE"@,
        KeyCode::KEYCODE_BUTTON_R1 => "KEYCODE_BUTTON_R1"@,
        KeyCode::KEYCODE_BUTTON_R2 => "KEYCODE_BUTTON_R2"@,
        KeyCode::KEYCODE_BUTTON_SELECT => "KEYCODE_BUTTON_SELECT"@,
        KeyCode::KEYCODE_BUTTON_START => "KEYCODE_BUTTON_START"@,
        KeyCode::KEYCODE_BUTTON_THUMBL => "KEYCODE_BUTTON_THUMBL"@,
        KeyCode::KEYCODE_BUTTON_THUMBR => "KEYCODE_BUTTON_THUMBR"@,
        KeyCode::KEYCODE_BUTTON_X => "KEYCODE_BUTTON_X"@,
        KeyCode::KEYCODE_BUTTON_Y => "KEYCODE_BUTTON_Y"@,
        KeyCode::KEYCODE_BUTTON_Z => "KEYCODE_BUTTON_Z"@,
        KeyCode::KEYCODE_C => "KEYCODE_C"@,
        KeyCode::KEYCODE_CALCULATOR => "KEYCODE_CALCULATOR"@,
        KeyCode::KEYCODE_CALENDAR => "KEYCODE_CALENDAR"@,
        KeyCode::KEYCODE_CALL => "KEYCODE_CALL"@,
        KeyCode::KEYCODE_CAMERA => "KEYCODE_CAMERA"@,
        KeyCode::KEYCODE_CAPS_LOCK => "KEYCODE_CAPS_LOCK"@,
        KeyCode::KEYCODE_CAPTIONS => "KEYCODE_CAPTIONS"@,
        KeyCode::KEYCODE_CHANNEL_DOWN => "KEYCODE_CHANNEL_DOWN"@,
        KeyCode::KEYCODE_CHANNEL_UP => "KEYCODE_CHANNEL_UP"@,
        KeyCode::KEYCODE_CLEAR => "KEYCODE_CLEAR"@,
        KeyCode::KEYCODE_COMMA => "KEYCODE_COMMA"@,
        KeyCode::KEYCODE_CONTACTS => "KEYCODE_CONTACTS"@,
        KeyCode::KEYCODE_COPY => "KEYCODE_COPY"@,
        KeyCode::KEYCODE_CTRL_LEFT => "KEYCODE_CTRL_LEFT"@,
        KeyCode::KEYCODE_CTRL_RIGHT => "KEYCODE_CTRL_RIGHT"@,
        KeyCode::KEYCODE_CUT => "KEYCODE_CUT"@,
        KeyCode::KEYCODE_D => "KEYCODE_D"@,
        KeyCode::KEYCODE_DEL => "KEYCODE_DEL"@,
        KeyCode::KEYCODE_DPAD_CENTER => "KEYCODE_DPAD_CENTER"@,
        KeyCode::KEYCODE_DPAD_DOWN => "KEYCODE_DPAD_DOWN"@,
        KeyCode::KEYCODE_DPAD_DOWN_LEFT => "KEYCODE_DPAD_DOWN_LEFT"@,
        KeyCode::KEYCODE_DPAD_DOWN_RIGHT => "KEYCODE_DPAD_DOWN_RIGHT"@,
        KeyCode::KEYCODE_DPAD_LEFT => "KEYCODE_DPAD_LEFT"@,
        KeyCode::KEYCODE_DPAD_RIGHT => "KEYCODE_DPAD_RIGHT"@,
        KeyCode::KEYCODE_DPAD_UP => "KEYCODE_DPAD_UP"@,
        KeyCode::KEYCODE_DPAD_UP_LEFT => "KEYCODE_DPAD_UP_LEFT"@,
        KeyCode::KEYCODE_DPAD_UP_RIGHT => "KEYCODE_DPAD_UP_RIGHT"@,
        KeyCode::KEYCODE_DVR => "KEYCODE_DVR"@,
        KeyCode::KEYCODE_E => "KEYCODE_E"@,
        KeyCode::KEYCODE_EISU => "KEYCODE_EISU"@,
        KeyCode::KEYCODE_ENDCALL => "KEYCODE_ENDCALL"@,
        KeyCode::KEYCODE_ENTER => "KEYCODE_ENTER"@,
        KeyCode::KEYCODE_ENVELOPE => "KEYCODE_ENVELOPE"@,
        KeyCode::KEYCODE_EQUALS => "KEYCODE_EQUALS"@,
        KeyCode::KEYCODE_ESCAPE => "KEYCODE_ESCAPE"@,
        KeyCode::KEYCODE_EXPLORER => "KEYCODE_EXPLORER"@,
        KeyCode::KEYCODE_F10 => "KEYCODE_F10"@,
        KeyCode::KEYCODE_F11 => "KEYCODE_F11"@,
        KeyCode::KEYCODE_F12 => "KEYCODE_F12"@,
        KeyCode::KEYCODE_F1 => "KEYCODE_F1"@,
        KeyCode::KEYCODE_F2 => "KEYCODE_F2"@,
        KeyCode::KEYCODE_F3 => "KEYCODE_F3"@,
        KeyCode::KEYCODE_F4 => "KEYCODE_F4"@,
        KeyCode::KEYCODE_F5 => "KEYCODE_F5"@,
        KeyCode::KEYCODE_F6 => "KEYCODE_F6"@,
        KeyCode::KEYCODE_F7 => "KEYCODE_F7"@,
        KeyCode::KEYCODE_F8 => "KEYCODE_F8"@,
        KeyCode::KEYCODE_F9 => "KEYCODE_F9"@,
        KeyCode::KEYCODE_F => "KEYCODE_F"@,
        KeyCode::KEYCODE_FOCUS => "KEYCODE_FOCUS"@,
        KeyCode::KEYCODE_FORWARD => "KEYCODE_FORWARD"@,
        KeyCode::KEYCODE_FORWARD_DEL => "KEYCODE_FORWARD_DEL"@,
        KeyCode::KEYCODE_FUNCTION => "KEYCODE_FUNCTION"@,
        KeyCode::KEYCODE_G => "KEYCODE_G"@,
        KeyCode::KEYCODE_GRAVE => "KEYCODE_GRAVE"@,
        KeyCode::KEYCODE_GUIDE => "KEYCODE_GUIDE"@,
        KeyCode::KEYCODE_H => "KEYCODE_H"@,
        KeyCode::KEYCODE_HEADSETHOOK => "KEYCODE_HEADSETHOOK"@,
        KeyCode::KEYCODE_HELP => "KEYCODE_HELP"@,
        KeyCode::KEYCODE_HENKAN => "KEYCODE_HENKAN"@,
        KeyCode::KEYCODE_HOME => "KEYCODE_HOME"@,
        KeyCode::KEYCODE_I => "KEYCODE_I"@,
        KeyCode::KEYCODE_INFO => "KEYCODE_INFO"@,
        KeyCode::KEYCODE_INSERT => "KEYCODE_INSERT"@,
        KeyCode::KEYCODE_J => "KEYCODE_J"@,
        KeyCode::KEYCODE_K => "KEYCODE_K"@,
        KeyCode::KEYCODE_KANA => "KEYCODE_KANA"@,
        KeyCode::KEYCODE_KATAKANA_HIRAGANA => "KEYCODE_KATAKANA_HIRAGANA"@,
        KeyCode::KEYCODE_L => "KEYCODE_L"@,
        KeyCode::KEYCODE_LANGUAGE_SWITCH => "KEYCODE_LANGUAGE_SWITCH"@,
        KeyCode::KEYCODE_LAST_CHANNEL => "KEYCODE_LAST_CHANNEL"@,
        KeyCode::KEYCODE_LEFT_BRACKET => "KEYCODE_LEFT_BRACKET"@,
        KeyCode::KEYCODE_M => "KEYCODE_M"@,
        KeyCode::KEYCODE_MANNER_MODE => "KEYCODE_MANNER_MODE"@,
        KeyCode::KEYCODE_MEDIA_AUDIO_TRACK => "KEYCODE_MEDIA_AUDIO_TRACK"@,
        KeyCode::KEYCODE_MEDIA_CLOSE => "KEYCODE_MEDIA_CLOSE"@,
        KeyCode::KEYCODE_MEDIA_EJECT => "KEYCODE_MEDIA_EJECT"@,
        KeyCode::KEYCODE_MEDIA_FAST_FORWARD => "KEYCODE_MEDIA_FAST_FORWARD"@,
        KeyCode::KEYCODE_MEDIA_NEXT => "KEYCODE_MEDIA_NEXT"@,
        KeyCode::KEYCODE_MEDIA_PAUSE => "KEYCODE_MEDIA_PAUSE"@,
        KeyCode::KEYCODE_MEDIA_PLAY => "KEYCODE_MEDIA_PLAY"@,
        KeyCode::KEYCODE_MEDIA_PLAY_PAUSE => "KEYCODE_MEDIA_PLAY_PAUSE"@,
        KeyCode::KEYCODE_MEDIA_PREVIOUS => "KEYCODE_MEDIA_PREVIOUS"@,
        KeyCode::KEYCODE_MEDIA_RECORD => "KEYCODE_MEDIA_RECORD"@,
        KeyCode::KEYCODE_MEDIA_REWIND => "KEYCODE_MEDIA_REWIND"@,
        KeyCode::KEYCODE_FAST_FORWARD => "KEYCODE_FAST_FORWARD"@,
        KeyCode::KEYCODE_MEDIA_SKIP_BACKWARD => "KEYCODE_MEDIA_SKIP_BACKWARD"@,
        KeyCode::KEYCODE_MEDIA_SKIP_FORWARD => "KEYCODE_MEDIA_SKIP_FORWARD"@,
        KeyCode::KEYCODE_MEDIA_STEP_BACKWARD => "KEYCODE_MEDIA_STEP_BACKWARD"@,
        KeyCode::KEYCODE_MEDIA_STEP_FORWARD => "KEYCODE_MEDIA_STEP_FORWARD"@,
        KeyCode::KEYCODE_MEDIA_STOP => "KEYCODE_MEDIA_STOP"@,
        KeyCode::KEYCODE_MEDIA_TOP_MENU => "KEYCODE_MEDIA_TOP_MENU"@,
        KeyCode::KEYCODE_MENU => "KEYCODE_MENU"@,
        KeyCode::KEYCODE_META_LEFT => "KEYCODE_META_LEFT"@,
        KeyCode::KEYCODE_META_RIGHT => "KEYCODE_META_RIGHT"@,
        KeyCode::KEYCODE_MINUS => "KEYCODE_MINUS"@,
        KeyCode::KEYCODE_MOVE_END => "KEYCODE_MOVE_END"@,
        KeyCode::KEYCODE_MOVE_HOME => "KEYCODE_MOVE_HOME"@,
        KeyCode::KEYCODE_MUHENKAN => "KEYCODE_MUHENKAN"@,
        KeyCode::KEYCODE_MUSIC => "KEYCODE_MUSIC"@,
        KeyCode::KEYCODE_MUTE => "KEYCODE_MUTE"@,
        KeyCode::KEYCODE_N => "KEYCODE_N"@,
        KeyCode::KEYCODE_NAVIGATE_IN => "KEYCODE_NAVIGATE_IN"@,
        KeyCode::KEYCODE_NAVIGATE_NEXT => "KEYCODE_NAVIGATE_NEXT"@,
        KeyCode::KEYCODE_NAVIGATE_OUT => "KEYCODE_NAVIGATE_OUT"@,
        KeyCode::KEYCODE_NAVIGATE_PREVIOUS => "KEYCODE_NAVIGATE_PREVIOUS"@,
        KeyCode::KEYCODE_NOTIFICATION => "KEYCODE_NOTIFICATION"@,
        KeyCode::KEYCODE_NUM => "KEYCODE_NUM"@,
        KeyCode::KEYCODE_NUM_LOCK => "KEYCODE_NUM_LOCK"@,
        KeyCode::KEYCODE_NUMPAD_0 => "KEYCODE_NUMPAD_0"@,
        KeyCode::KEYCODE_NUMPAD_1 => "KEYCODE_NUMPAD_1"@,
        KeyCode::KEYCODE_NUMPAD_2 => "KEYCODE_NUMPAD_2"@,
        KeyCode::KEYCODE_NUMPAD_3 => "KEYCODE_NUMPAD_3"@,
        KeyCode::KEYCODE_NUMPAD_4 => "KEYCODE_NUMPAD_4"@,
        KeyCode::KEYCODE_NUMPAD_5 => "KEYCODE_NUMPAD_5"@,
        KeyCode::KEYCODE_NUMPAD_6 => "KEYCODE_NUMPAD_6"@,
        KeyCode::KEYCODE_NUMPAD_7 => "KEYCODE_NUMPAD_7"@,
        KeyCode::KEYCODE_NUMPAD_8 => "KEYCODE_NUMPAD_8"@,
        KeyCode::KEYCODE_NUMPAD_9 => "KEYCODE_NUMPAD_9"@,
        KeyCode::KEYCODE_NUMPAD_ADD => "KEYCODE_NUMPAD_ADD"@,
        KeyCode::KEYCODE_NUMPAD_COMMA => "KEYCODE_NUMPAD_COMMA"@,
        KeyCode::KEYCODE_NUMPAD_DIVIDE => "KEYCODE_NUMPAD_DIVIDE"@,
        KeyCode::KEYCODE_NUMPAD_DOT => "KEYCODE_NUMPAD_DOT"@,
        KeyCode::KEYCODE_NUMPAD_ENTER => "KEYCODE_NUMPAD_ENTER"@,
        KeyCode::KEYCODE_NUMPAD_EQUALS => "KEYCODE_NUMPAD_EQUALS"@,
        KeyCode::KEYCODE_NUMPAD_LEFT_PAREN => "KEYCODE_NUMPAD_LEFT_PAREN"@,
        KeyCode::KEYCODE_NUMPAD_MULTIPLY => "KEYCODE_NUMPAD_MULTIPLY"@,
        KeyCode::KEYCODE_NUMPAD_RIGHT_PAREN => "KEYCODE_NUMPAD_RIGHT_PAREN"@,
        KeyCode::KEYCODE_NUMPAD_SUBTRACT => "KEYCODE_NUMPAD_SUBTRACT"@,
        KeyCode::KEYCODE_O => "KEYCODE_O"@,
        KeyCode::KEYCODE_P => "KEYCODE_P"@,
        KeyCode::KEYCODE_PAGE_DOWN => "KEYCODE_PAGE_DOWN"@,
        KeyCode::KEYCODE_PAGE_UP => "KEYCODE_PAGE_UP"@,
        KeyCode::KEYCODE_PAIRING => "KEYCODE_PAIRING"@,
        KeyCode::KEYCODE_PASTE => "KEYCODE_PASTE"@,
        KeyCode::KEYCODE_PERIOD => "KEYCODE_PERIOD"@,
        KeyCode::KEYCODE_PICTSYMBOLS => "KEYCODE_PICTSYMBOLS"@,
        KeyCode::KEYCODE_PLUS => "KEYCODE_PLUS"@,
        KeyCode::KEYCODE_POUND => "KEYCODE_POUND"@,
        KeyCode::KEYCODE_POWER => "KEYCODE_POWER"@,
        KeyCode::KEYCODE_PROFILE_SWITCH => "KEYCODE_PROFILE_SWITCH"@,
        KeyCode::KEYCODE_PROG_BLUE => "KEYCODE_PROG_BLUE"@,
        KeyCode::KEYCODE_PROG_GREEN => "KEYCODE_PROG_GREEN"@,
        KeyCode::KEYCODE_PROG_RED => "KEYCODE_PROG_RED"@,
        KeyCode::KEYCODE_PROG_YELLOW => "KEYCODE_PROG_YELLOW"@,
        KeyCode::KEYCODE_Q => "KEYCODE_Q"@,
        KeyCode::KEYCODE_R => "KEYCODE_R"@,
        KeyCode::KEYCODE_REFRESH => "KEYCODE_REFRESH"@,
        KeyCode::KEYCODE_RIGHT_BRACKET => "KEYCODE_RIGHT_BRACKET"@,
        KeyCode::KEYCODE_RO => "KEYCODE_RO"@,
        KeyCode::KEYCODE_S => "KEYCODE_S"@,
        KeyCode::KEYCODE_SCROLL_LOCK => "KEYCODE_SCROLL_LOCK"@,
        KeyCode::KEYCODE_SEARCH => "KEYCODE_SEARCH"@,
        KeyCode::KEYCODE_SEMICOLON => "KEYCODE_SEMICOLON"@,
        KeyCode::KEYCODE_SETTINGS => "KEYCODE_SETTINGS"@,
        KeyCode::KEYCODE_SHIFT_LEFT => "KEYCODE_SHIFT_LEFT"@,
        KeyCode::KEYCODE_SHIFT_RIGHT => "KEYCODE_SHIFT_RIGHT"@,
        KeyCode::KEYCODE_SLASH => "KEYCODE_SLASH"@,
        KeyCode::KEYCODE_SLEEP => "KEYCODE_SLEEP"@,
        KeyCode::KEYCODE_SOFT_LEFT => "KEYCODE_SOFT_LEFT"@,
        KeyCode::KEYCODE_SOFT_RIGHT => "KEYCODE_SOFT_RIGHT"@,
        KeyCode::KEYCODE_SOFT_SLEEP => "KEYCODE_SOFT_SLEEP"@,
        KeyCode::KEYCODE_SPACE => "KEYCODE_SPACE"@,
        KeyCode::KEYCODE_STAR => "KEYCODE_STAR"@,
        KeyCode::KEYCODE_STB_INPUT => "KEYCODE_STB_INPUT"@,
        KeyCode::KEYCODE_STB_POWER => "KEYCODE_STB_POWER"@,
        KeyCode::KEYCODE_STEM_1 => "KEYCODE_STEM_1"@,
        KeyCode::KEYCODE_STEM_2 => "KEYCODE_STEM_2"@,
        KeyCode::KEYCODE_STEM_3 => "KEYCODE_STEM_3"@,
        KeyCode::KEYCODE_STEM_PRIMARY => "KEYCODE_STEM_PRIMARY"@,
        KeyCode::KEYCODE_SWITCH_CHARSET => "KEYCODE_SWITCH_CHARSET"@,
        KeyCode::KEYCODE_SYM => "KEYCODE_SYM"@,
        KeyCode::KEYCODE_SYSRQ => "KEYCODE_SYSRQ"@,
        KeyCode::KEYCODE_SYSTEM_NAVIGATION_DOWN => "KEYCODE_SYSTEM_NAVIGATION_DOWN"@,
        KeyCode::KEYCODE_SYSTEM_NAVIGATION_LEFT => "KEYCODE_SYSTEM_NAVIGATION_LEFT"@,
        KeyCode::KEYCODE_SYSTEM_NAVIGATION_RIGHT => "KEYCODE_SYSTEM_NAVIGATION_RIGHT"@,
        KeyCode::KEYCODE_SYSTEM_NAVIGATION_UP => "KEYCODE_SYSTEM_NAVIGATION_UP"@,
        KeyCode::KEYCODE_T => "KEYCODE_T"@,
        KeyCode::KEYCODE_TAB => "KEYCODE_TAB"@,
        KeyCode::KEYCODE_THUMBS_DOWN => "KEYCODE_THUMBS_DOWN"@,
        KeyCode::KEYCODE_THUMBS_UP => "KEYCODE_THUMBS_UP"@,
        KeyCode::KEYCODE_TV => "KEYCODE_TV"@,
        KeyCode::KEYCODE_TV_ANTENNA_CABLE => "KEYCODE_TV_ANTENNA_CABLE"@,
        KeyCode::KEYCODE_TV_AUDIO_DESCRIPTION => "KEYCODE_TV_AUDIO_DESCRIPTION"@,
        KeyCode::KEYCODE_TV_AUDIO_DESCRIPTION_MIX_DOWN => "KEYCODE_TV_AUDIO_DESCRIPTION_MIX_DOWN"@,
        KeyCode::KEYCODE_TV_AUDIO_DESCRIPTION_MIX_UP => "KEYCODE_TV_AUDIO_DESCRIPTION_MIX_UP"@,
        KeyCode::KEYCODE_TV_CONTENTS_MENU => "KEYCODE_TV_CONTENTS_MENU"@,
        KeyCode::KEYCODE_TV_DATA_SERVICE => "KEYCODE_TV_DATA_SERVICE"@,
        KeyCode::KEYCODE_TV_INPUT => "KEYCODE_TV_INPUT"@,
        KeyCode::KEYCODE_TV_INPUT_COMPONENT_1 => "KEYCODE_TV_INPUT_COMPONENT_1"@,
        KeyCode::KEYCODE_TV_INPUT_COMPONENT_2 => "KEYCODE_TV_INPUT_COMPONENT_2"@,
        KeyCode::KEYCODE_TV_INPUT_COMPOSITE_1 => "KEYCODE_TV_INPUT_COMPOSITE_1"@,
        KeyCode::KEYCODE_TV_INPUT_COMPOSITE_2 => "KEYCODE_TV_INPUT_COMPOSITE_2"@,
        KeyCode::KEYCODE_TV_INPUT_HDMI_1 => "KEYCODE_TV_INPUT_HDMI_1"@,
        KeyCode::KEYCODE_TV_INPUT_HDMI_2 => "KEYCODE_TV_INPUT_HDMI_2"@,
        KeyCode::KEYCODE_TV_INPUT_HDMI_3 => "KEYCODE_TV_INPUT_HDMI_3"@,
        KeyCode::KEYCODE_TV_INPUT_HDMI_4 => "KEYCODE_TV_INPUT_HDMI_4"@,
        KeyCode::KEYCODE_TV_INPUT_VGA_1 => "KEYCODE_TV_INPUT_VGA_1"@,
        KeyCode::KEYCODE_TV_MEDIA_CONTEXT_MENU => "KEYCODE_TV_MEDIA_CONTEXT_MENU"@,
        KeyCode::KEYCODE_TV_NETWORK => "KEYCODE_TV_NETWORK"@,
        KeyCode::KEYCODE_TV_NUMBER_ENTRY => "KEYCODE_TV_NUMBER_ENTRY"@,
        KeyCode::KEYCODE_TV_POWER => "KEYCODE_TV_POWER"@,
        KeyCode::KEYCODE_TV_RADIO_SERVICE => "KEYCODE_TV_RADIO_SERVICE"@,
        KeyCode::KEYCODE_TV_SATELLITE => "KEYCODE_TV_SATELLITE"@,
        KeyCode::KEYCODE_TV_SATELLITE_BS => "KEYCODE_TV_SATELLITE_BS"@,
        KeyCode::KEYCODE_TV_SATELLITE_CS => "KEYCODE_TV_SATELLITE_CS"@,
        KeyCode::KEYCODE_TV_SATELLITE_SERVICE => "KEYCODE_TV_SATELLITE_SERVICE"@,
        KeyCode::KEYCODE_TV_TELETEXT => "KEYCODE_TV_TELETEXT"@,
        KeyCode::KEYCODE_TV_TERRESTRIAL_ANALOG => "KEYCODE_TV_TERRESTRIAL_ANALOG"@,
        KeyCode::KEYCODE_TV_TERRESTRIAL_DIGITAL => "KEYCODE_TV_TERRESTRIAL_DIGITAL"@,
        KeyCode::KEYCODE_TV_TIMER_PROGRAMMING => "KEYCODE_TV_TIMER_PROGRAMMING"@,
        KeyCode::KEYCODE_TV_ZOOM_MODE => "KEYCODE_TV_ZOOM_MODE"@,
        KeyCode::KEYCODE_U => "KEYCODE_U"@,
        KeyCode::KEYCODE_UNKNOWN => "KEYCODE_UNKNOWN"@,
        KeyCode::KEYCODE_V => "KEYCODE_V"@,
        KeyCode::KEYCODE_VOICE_ASSIST => "KEYCODE_VOICE_ASSIST"@,
        KeyCode::KEYCODE_VOLUME_DOWN => "KEYCODE_VOLUME_DOWN"@,
        KeyCode::KEYCODE_VOLUME_MUTE => "KEYCODE_VOLUME_MUTE"@,
        KeyCode::KEYCODE_VOLUME_UP => "KEYCODE_VOLUME_UP"@,
        KeyCode::KEYCODE_W => "KEYCODE_W"@,
        KeyCode::KEYCODE_WAKEUP => "KEYCODE_WAKEUP"@,
        KeyCode::KEYCODE_WINDOW => "KEYCODE_WINDOW"@,
        KeyCode::KEYCODE_X => "KEYCODE_X"@,
        KeyCode::KEYCODE_Y => "KEYCODE_Y"@,
        KeyCode::KEYCODE_YEN => "KEYCODE_YEN"@,
        KeyCode::KEYCODE_Z => "KEYCODE_Z"@,
        KeyCode::KEYCODE_ZENKAKU_HANKAKU => "KEYCODE_ZENKAKU_HANKAKU"@,
        KeyCode::KEYCODE_ZOOM_IN => "KEYCODE_ZOOM_IN"@,
        KeyCode::KEYCODE_ZOOM_OUT => "KEYCODE_ZOOM_OUT"@,
    }
}

impl KeyCode {
    /// The name of the key code, the variant's own name.
    pub fn as_str(&self) -> (s: &'static str)
        ensures
            s@ == keycode_name(*self),
    {
        match self {
            KeyCode::KEYCODE_0 => "KEYCODE_0",
            KeyCode::KEYCODE_11 => "KEYCODE_11",
            KeyCode::KEYCODE_12 => "KEYCODE_12",
            KeyCode::KEYCODE_1 => "KEYCODE_1",
            KeyCode::KEYCODE_2 => "KEYCODE_2",
            KeyCode::KEYCODE_3 => "KEYCODE_3",
            KeyCode::KEYCODE_3D_MODE => "KEYCODE_3D_MODE",
            KeyCode::KEYCODE_4 => "KEYCODE_4",
            KeyCode::KEYCODE_5 => "KEYCODE_5",
            KeyCode::KEYCODE_6 => "KEYCODE_6",
            KeyCode::KEYCODE_7 => "KEYCODE_7",
            KeyCode::KEYCODE_8 => "KEYCODE_8",
            KeyCode::KEYCODE_9 => "KEYCODE_9",
            KeyCode::KEYCODE_A => "KEYCODE_A",
            KeyCode::KEYCODE_ALL_APPS => "KEYCODE_ALL_APPS",
            KeyCode::KEYCODE_ALT_LEFT => "KEYCODE_ALT_LEFT",
            KeyCode::KEYCODE_ALT_RIGHT => "KEYCODE_ALT_RIGHT",
            KeyCode::KEYCODE_APOSTROPHE => "KEYCODE_APOSTROPHE",
            KeyCode::KEYCODE_APP_SWITCH => "KEYCODE_APP_SWITCH",
            KeyCode::KEYCODE_ASSIST => "KEYCODE_ASSIST",
            KeyCode::KEYCODE_AT => "KEYCODE_AT",
            KeyCode::KEYCODE_AVR_INPUT => "KEYCODE_AVR_INPUT",
            KeyCode::KEYCODE_AVR_POWER => "KEYCODE_AVR_POWER",
            KeyCode::KEYCODE_B => "KEYCODE_B",
            KeyCode::KEYCODE_BACK => "KEYCODE_BACK",
            KeyCode::KEYCODE_BACKSLASH => "KEYCODE_BACKSLASH",
            KeyCode::KEYCODE_BOOKMARK => "KEYCODE_BOOKMARK",
            KeyCode::KEYCODE_BREAK => "KEYCODE_BREAK",
            KeyCode::KEYCODE_BRIGHTNESS_DOWN => "KEYCODE_BRIGHTNESS_DOWN",
            KeyCode::KEYCODE_BRIGHTNESS_UP => "KEYCODE_BRIGHTNESS_UP",
            KeyCode::KEYCODE_BUTTON_10 => "KEYCODE_BUTTON_10",
            KeyCode::KEYCODE_BUTTON_11 => "KEYCODE_BUTTON_11",
            KeyCode::KEYCODE_BUTTON_12 => "KEYCODE_BUTTON_12",
            KeyCode::KEYCODE_BUTTON_13 => "KEYCODE_BUTTON_13",
            KeyCode::KEYCODE_BUTTON_14 => "KEYCODE_BUTTON_14",
            KeyCode::KEYCODE_BUTTON_15 => "KEYCODE_BUTTON_15",
            KeyCode::KEYCODE_BUTTON_16 => "KEYCODE_BUTTON_16",
            KeyCode::KEYCODE_BUTTON_1 => "KEYCODE_BUTTON_1",
            KeyCode::KEYCODE_BUTTON_2 => "KEYCODE_BUTTON_2",
            KeyCode::KEYCODE_BUTTON_3 => "KEYCODE_BUTTON_3",
            KeyCode::KEYCODE_BUTTON_4 => "KEYCODE_BUTTON_4",
            KeyCode::KEYCODE_BUTTON_5 => "KEYCODE_BUTTON_5",
            KeyCode::KEYCODE_BUTTON_6 => "KEYCODE_BUTTON_6",
            KeyCode::KEYCODE_BUTTON_7 => "KEYCODE_BUTTON_7",
            KeyCode::KEYCODE_BUTTON_8 => "KEYCODE_BUTTON_8",
            KeyCode::KEYCODE_BUTTON_9 => "KEYCODE_BUTTON_9",
            KeyCode::KEYCODE_BUTTON_A => "KEYCODE_BUTTON_A",
            KeyCode::KEYCODE_BUTTON_B => "KEYCODE_BUTTON_B",
            KeyCode::KEYCODE_BUTTON_C => "KEYCODE_BUTTON_C",
            KeyCode::KEYCODE_BUTTON_L1 => "KEYCODE_BUTTON_L1",
            KeyCode::KEYCODE_BUTTON_L2 => "KEYCODE_BUTTON_L2",
            KeyCode::KEYCODE_BUTTON_MODE => "KEYCODE_BUTTON_MODE",
            KeyCode::KEYCODE_BUTTON_R1 => "KEYCODE_BUTTON_R1",
            KeyCode::KEYCODE_BUTTON_R2 => "KEYCODE_BUTTON_R2",
            KeyCode::KEYCODE_BUTTON_SELECT => "KEYCODE_BUTTON_SELECT",
            KeyCode::KEYCODE_BUTTON_START => "KEYCODE_BUTTON_START",
            KeyCode::KEYCODE_BUTTON_THUMBL => "KEYCODE_BUTTON_THUMBL",
            KeyCode::KEYCODE_BUTTON_THUMBR => "KEYCODE_BUTTON_THUMBR",
            KeyCode::KEYCODE_BUTTON_X => "KEYCODE_BUTTON_X",
            KeyCode::KEYCODE_BUTTON_Y => "KEYCODE_BUTTON_Y",
            KeyCode::KEYCODE_BUTTON_Z => "KEYCODE_BUTTON_Z",
            KeyCode::KEYCODE_C => "KEYCODE_C",
            KeyCode::KEYCODE_CALCULATOR => "KEYCODE_CALCULATOR",
            KeyCode::KEYCODE_CALENDAR => "KEYCODE_CALENDAR",
            KeyCode::KEYCODE_CALL => "KEYCODE_CALL",
            KeyCode::KEYCODE_CAMERA => "KEYCODE_CAMERA",
            KeyCode::KEYCODE_CAPS_LOCK => "KEYCODE_CAPS_LOCK",
            KeyCode::KEYCODE_CAPTIONS => "KEYCODE_CAPTIONS",
            KeyCode::KEYCODE_CHANNEL_DOWN => "KEYCODE_CHANNEL_DOWN",
            KeyCode::KEYCODE_CHANNEL_UP => "KEYCODE_CHANNEL_UP",
            KeyCode::KEYCODE_CLEAR => "KEYCODE_CLEAR",
            KeyCode::KEYCODE_COMMA => "KEYCODE_COMMA",
            KeyCode::KEYCODE_CONTACTS => "KEYCODE_CONTACTS",
            KeyCode::KEYCODE_COPY => "KEYCODE_COPY",
            KeyCode::KEYCODE_CTRL_LEFT => "KEYCODE_CTRL_LEFT",
            KeyCode::KEYCODE_CTRL_RIGHT => "KEYCODE_CTRL_RIGHT",
            KeyCode::KEYCODE_CUT => "KEYCODE_CUT",
            KeyCode::KEYCODE_D => "KEYCODE_D",
            KeyCode::KEYCODE_DEL => "KEYCODE_DEL",
            KeyCode::KEYCODE_DPAD_CENTER => "KEYCODE_DPAD_CENTER",
            KeyCode::KEYCODE_DPAD_DOWN => "KEYCODE_DPAD_DOWN",
            KeyCode::KEYCODE_DPAD_DOWN_LEFT => "KEYCODE_DPAD_DOWN_LEFT",
            KeyCode::KEYCODE_DPAD_DOWN_RIGHT => "KEYCODE_DPAD_DOWN_RIGHT",
            KeyCode::KEYCODE_DPAD_LEFT => "KEYCODE_DPAD_LEFT",
            KeyCode::KEYCODE_DPAD_RIGHT => "KEYCODE_DPAD_RIGHT",
            KeyCode::KEYCODE_DPAD_UP => "KEYCODE_DPAD_UP",
            KeyCode::KEYCODE_DPAD_UP_LEFT => "KEYCODE_DPAD_UP_LEFT",
            KeyCode::KEYCODE_DPAD_UP_RIGHT => "KEYCODE_DPAD_UP_RIGHT",
            KeyCode::KEYCODE_DVR => "KEYCODE_DVR",
            KeyCode::KEYCODE_E => "KEYCODE_E",
            KeyCode::KEYCODE_EISU => "KEYCODE_EISU",
            KeyCode::KEYCODE_ENDCALL => "KEYCODE_ENDCALL",
            KeyCode::KEYCODE_ENTER => "KEYCODE_ENTER",
            KeyCode::KEYCODE_ENVELOPE => "KEYCODE_ENVELOPE",
            KeyCode::KEYCODE_EQUALS => "KEYCODE_EQUALS",
            KeyCode::KEYCODE_ESCAPE => "KEYCODE_ESCAPE",
            KeyCode::KEYCODE_EXPLORER => "KEYCODE_EXPLORER",
            KeyCode::KEYCODE_F10 => "KEYCODE_F10",
            KeyCode::KEYCODE_F11 => "KEYCODE_F11",
            KeyCode::KEYCODE_F12 => "KEYCODE_F12",
            KeyCode::KEYCODE_F1 => "KEYCODE_F1",
            KeyCode::KEYCODE_F2 => "KEYCODE_F2",
            KeyCode::KEYCODE_F3 => "KEYCODE_F3",
            KeyCode::KEYCODE_F4 => "KEYCODE_F4",
            KeyCode::KEYCODE_F5 => "KEYCODE_F5",
            KeyCode::KEYCODE_F6 => "KEYCODE_F6",
            KeyCode::KEYCODE_F7 => "KEYCODE_F7",
            KeyCode::KEYCODE_F8 => "KEYCODE_F8",
            KeyCode::KEYCODE_F9 => "KEYCODE_F9",
            KeyCode::KEYCODE_F => "KEYCODE_F",
            KeyCode::KEYCODE_FOCUS => "KEYCODE_FOCUS",
            KeyCode::KEYCODE_FORWARD => "KEYCODE_FORWARD",
            KeyCode::KEYCODE_FORWARD_DEL => "KEYCODE_FORWARD_DEL",
            KeyCode::KEYCODE_FUNCTION => "KEYCODE_FUNCTION",
            KeyCode::KEYCODE_G => "KEYCODE_G",
            KeyCode::KEYCODE_GRAVE => "KEYCODE_GRAVE",
            KeyCode::KEYCODE_GUIDE => "KEYCODE_GUIDE",
            KeyCode::KEYCODE_H => "KEYCODE_H",
            KeyCode::KEYCODE_HEADSETHOOK => "KEYCODE_HEADSETHOOK",
            KeyCode::KEYCODE_HELP => "KEYCODE_HELP",
            KeyCode::KEYCODE_HENKAN => "KEYCODE_HENKAN",
            KeyCode::KEYCODE_HOME => "KEYCODE_HOME",
            KeyCode::KEYCODE_I => "KEYCODE_I",
            KeyCode::KEYCODE_INFO => "KEYCODE_INFO",
            KeyCode::KEYCODE_INSERT => "KEYCODE_INSERT",
            KeyCode::KEYCODE_J => "KEYCODE_J",
            KeyCode::KEYCODE_K => "KEYCODE_K",
            KeyCode::KEYCODE_KANA => "KEYCODE_KANA",
            KeyCode::KEYCODE_KATAKANA_HIRAGANA => "KEYCODE_KATAKANA_HIRAGANA",
            KeyCode::KEYCODE_L => "KEYCODE_L",
            KeyCode::KEYCODE_LANGUAGE_SWITCH => "KEYCODE_LANGUAGE_SWITCH",
            KeyCode::KEYCODE_LAST_CHANNEL => "KEYCODE_LAST_CHANNEL",
            KeyCode::KEYCODE_LEFT_BRACKET => "KEYCODE_LEFT_BRACKET",
            KeyCode::KEYCODE_M => "KEYCODE_M",
            KeyCode::KEYCODE_MANNER_MODE => "KEYCODE_MANNER_MODE",
            KeyCode::KEYCODE_MEDIA_AUDIO_TRACK => "KEYCODE_MEDIA_AUDIO_TRACK",
            KeyCode::KEYCODE_MEDIA_CLOSE => "KEYCODE_MEDIA_CLOSE",
            KeyCode::KEYCODE_MEDIA_EJECT => "KEYCODE_MEDIA_EJECT",
            KeyCode::KEYCODE_MEDIA_FAST_FORWARD => "KEYCODE_MEDIA_FAST_FORWARD",
            KeyCode::KEYCODE_MEDIA_NEXT => "KEYCODE_MEDIA_NEXT",
            KeyCode::KEYCODE_MEDIA_PAUSE => "KEYCODE_MEDIA_PAUSE",
            KeyCode::KEYCODE_MEDIA_PLAY => "KEYCODE_MEDIA_PLAY",
            KeyCode::KEYCODE_MEDIA_PLAY_PAUSE => "KEYCODE_MEDIA_PLAY_PAUSE",
            KeyCode::KEYCODE_MEDIA_PREVIOUS => "KEYCODE_MEDIA_PREVIOUS",
            KeyCode::KEYCODE_MEDIA_RECORD => "KEYCODE_MEDIA_RECORD",
            KeyCode::KEYCODE_MEDIA_REWIND => "KEYCODE_MEDIA_REWIND",
            KeyCode::KEYCODE_FAST_FORWARD => "KEYCODE_FAST_FORWARD",
            KeyCode::KEYCODE_MEDIA_SKIP_BACKWARD => "KEYCODE_MEDIA_SKIP_BACKWARD",
            KeyCode::KEYCODE_MEDIA_SKIP_FORWARD => "KEYCODE_MEDIA_SKIP_FORWARD",
            KeyCode::KEYCODE_MEDIA_STEP_BACKWARD => "KEYCODE_MEDIA_STEP_BACKWARD",
            KeyCode::KEYCODE_MEDIA_STEP_FORWARD => "KEYCODE_MEDIA_STEP_FORWARD",
            KeyCode::KEYCODE_MEDIA_STOP => "KEYCODE_MEDIA_STOP",
            KeyCode::KEYCODE_MEDIA_TOP_MENU => "KEYCODE_MEDIA_TOP_MENU",
            KeyCode::KEYCODE_MENU => "KEYCODE_MENU",
            KeyCode::KEYCODE_META_LEFT => "KEYCODE_META_LEFT",
            KeyCode::KEYCODE_META_RIGHT => "KEYCODE_META_RIGHT",
            KeyCode::KEYCODE_MINUS => "KEYCODE_MINUS",
            KeyCode::KEYCODE_MOVE_END => "KEYCODE_MOVE_END",
            KeyCode::KEYCODE_MOVE_HOME => "KEYCODE_MOVE_HOME",
            KeyCode::KEYCODE_MUHENKAN => "KEYCODE_MUHENKAN",
            KeyCode::KEYCODE_MUSIC => "KEYCODE_MUSIC",
            KeyCode::KEYCODE_MUTE => "KEYCODE_MUTE",
            KeyCode::KEYCODE_N => "KEYCODE_N",
            KeyCode::KEYCODE_NAVIGATE_IN => "KEYCODE_NAVIGATE_IN",
            KeyCode::KEYCODE_NAVIGATE_NEXT => "KEYCODE_NAVIGATE_NEXT",
            KeyCode::KEYCODE_NAVIGATE_OUT => "KEYCODE_NAVIGATE_OUT",
            KeyCode::KEYCODE_NAVIGATE_PREVIOUS => "KEYCODE_NAVIGATE_PREVIOUS",
            KeyCode::KEYCODE_NOTIFICATION => "KEYCODE_NOTIFICATION",
            KeyCode::KEYCODE_NUM => "KEYCODE_NUM",
            KeyCode::KEYCODE_NUM_LOCK => "KEYCODE_NUM_LOCK",
            KeyCode::KEYCODE_NUMPAD_0 => "KEYCODE_NUMPAD_0",
            KeyCode::KEYCODE_NUMPAD_1 => "KEYCODE_NUMPAD_1",
            KeyCode::KEYCODE_NUMPAD_2 => "KEYCODE_NUMPAD_2",
            KeyCode::KEYCODE_NUMPAD_3 => "KEYCODE_NUMPAD_3",
            KeyCode::KEYCODE_NUMPAD_4 => "KEYCODE_NUMPAD_4",
            KeyCode::KEYCODE_NUMPAD_5 => "KEYCODE_NUMPAD_5",
            KeyCode::KEYCODE_NUMPAD_6 => "KEYCODE_NUMPAD_6",
            KeyCode::KEYCODE_NUMPAD_7 => "KEYCODE_NUMPAD_7",
            KeyCode::KEYCODE_NUMPAD_8 => "KEYCODE_NUMPAD_8",
            KeyCode::KEYCODE_NUMPAD_9 => "KEYCODE_NUMPAD_9",
            KeyCode::KEYCODE_NUMPAD_ADD => "KEYCODE_NUMPAD_ADD",
            KeyCode::KEYCODE_NUMPAD_COMMA => "KEYCODE_NUMPAD_COMMA",
            KeyCode::KEYCODE_NUMPAD_DIVIDE => "KEYCODE_NUMPAD_DIVIDE",
            KeyCode::KEYCODE_NUMPAD_DOT => "KEYCODE_NUMPAD_DOT",
            KeyCode::KEYCODE_NUMPAD_ENTER => "KEYCODE_NUMPAD_ENTER",
            KeyCode::KEYCODE_NUMPAD_EQUALS => "KEYCODE_NUMPAD_EQUALS",
            KeyCode::KEYCODE_NUMPAD_LEFT_PAREN => "KEYCODE_NUMPAD_LEFT_PAREN",
            KeyCode::KEYCODE_NUMPAD_MULTIPLY => "KEYCODE_NUMPAD_MULTIPLY",
            KeyCode::KEYCODE_NUMPAD_RIGHT_PAREN => "KEYCODE_NUMPAD_RIGHT_PAREN",
            KeyCode::KEYCODE_NUMPAD_SUBTRACT => "KEYCODE_NUMPAD_SUBTRACT",
            KeyCode::KEYCODE_O => "KEYCODE_O",
            KeyCode::KEYCODE_P => "KEYCODE_P",
            KeyCode::KEYCODE_PAGE_DOWN => "KEYCODE_PAGE_DOWN",
            KeyCode::KEYCODE_PAGE_UP => "KEYCODE_PAGE_UP",
            KeyCode::KEYCODE_PAIRING => "KEYCODE_PAIRING",
            KeyCode::KEYCODE_PASTE => "KEYCODE_PASTE",
            KeyCode::KEYCODE_PERIOD => "KEYCODE_PERIOD",
            KeyCode::KEYCODE_PICTSYMBOLS => "KEYCODE_PICTSYMBOLS",
            KeyCode::KEYCODE_PLUS => "KEYCODE_PLUS",
            KeyCode::KEYCODE_POUND => "KEYCODE_POUND",
            KeyCode::KEYCODE_POWER => "KEYCODE_POWER",
            KeyCode::KEYCODE_PROFILE_SWITCH => "KEYCODE_PROFILE_SWITCH",
            KeyCode::KEYCODE_PROG_BLUE => "KEYCODE_PROG_BLUE",
            KeyCode::KEYCODE_PROG_GREEN => "KEYCODE_PROG_GREEN",
            KeyCode::KEYCODE_PROG_RED => "KEYCODE_PROG_RED",
            KeyCode::KEYCODE_PROG_YELLOW => "KEYCODE_PROG_YELLOW",
            KeyCode::KEYCODE_Q => "KEYCODE_Q",
            KeyCode::KEYCODE_R => "KEYCODE_R",
            KeyCode::KEYCODE_REFRESH => "KEYCODE_REFRESH",
            KeyCode::KEYCODE_RIGHT_BRACKET => "KEYCODE_RIGHT_BRACKET",
            KeyCode::KEYCODE_RO => "KEYCODE_RO",
            KeyCode::KEYCODE_S => "KEYCODE_S",
            KeyCode::KEYCODE_SCROLL_LOCK => "KEYCODE_SCROLL_LOCK",
            KeyCode::KEYCODE_SEARCH => "KEYCODE_SEARCH",
            KeyCode::KEYCODE_SEMICOLON => "KEYCODE_SEMICOLON",
            KeyCode::KEYCODE_SETTINGS => "KEYCODE_SETTINGS",
            KeyCode::KEYCODE_SHIFT_LEFT => "KEYCODE_SHIFT_LEFT",
            KeyCode::KEYCODE_SHIFT_RIGHT => "KEYCODE_SHIFT_RIGHT",
            KeyCode::KEYCODE_SLASH => "KEYCODE_SLASH",
            KeyCode::KEYCODE_SLEEP => "KEYCODE_SLEEP",
            KeyCode::KEYCODE_SOFT_LEFT => "KEYCODE_SOFT_LEFT",
            KeyCode::KEYCODE_SOFT_RIGHT => "KEYCODE_SOFT_RIGHT",
            KeyCode::KEYCODE_SOFT_SLEEP => "KEYCODE_SOFT_SLEEP",
            KeyCode::KEYCODE_SPACE => "KEYCODE_SPACE",
            KeyCode::KEYCODE_STAR => "KEYCODE_STAR",
            KeyCode::KEYCODE_STB_INPUT => "KEYCODE_STB_INPUT",
            KeyCode::KEYCODE_STB_POWER => "KEYCODE_STB_POWER",
            KeyCode::KEYCODE_STEM_1 => "KEYCODE_STEM_1",
            KeyCode::KEYCODE_STEM_2 => "KEYCODE_STEM_2",
            KeyCode::KEYCODE_STEM_3 => "KEYCODE_STEM_3",
            KeyCode::KEYCODE_STEM_PRIMARY => "KEYCODE_STEM_PRIMARY",
            KeyCode::KEYCODE_SWITCH_CHARSET => "KEYCODE_SWITCH_CHARSET",
            KeyCode::KEYCODE_SYM => "KEYCODE_SYM",
            KeyCode::KEYCODE_SYSRQ => "KEYCODE_SYSRQ",
            KeyCode::KEYCODE_SYSTEM_NAVIGATION_DOWN => "KEYCODE_SYSTEM_NAVIGATION_DOWN",
            KeyCode::KEYCODE_SYSTEM_NAVIGATION_LEFT => "KEYCODE_SYSTEM_NAVIGATION_LEFT",
            KeyCode::KEYCODE_SYSTEM_NAVIGATION_RIGHT => "KEYCODE_SYSTEM_NAVIGATION_RIGHT",
            KeyCode::KEYCODE_SYSTEM_NAVIGATION_UP => "KEYCODE_SYSTEM_NAVIGATION_UP",
            KeyCode::KEYCODE_T => "KEYCODE_T",
            KeyCode::KEYCODE_TAB => "KEYCODE_TAB",
            KeyCode::KEYCODE_THUMBS_DOWN => "KEYCODE_THUMBS_DOWN",
            KeyCode::KEYCODE_THUMBS_UP => "KEYCODE_THUMBS_UP",
            KeyCode::KEYCODE_TV => "KEYCODE_TV",
            KeyCode::KEYCODE_TV_ANTENNA_CABLE => "KEYCODE_TV_ANTENNA_CABLE",
            KeyCode::KEYCODE_TV_AUDIO_DESCRIPTION => "KEYCODE_TV_AUDIO_DESCRIPTION",
            KeyCode::KEYCODE_TV_AUDIO_DESCRIPTION_MIX_DOWN => "KEYCODE_TV_AUDIO_DESCRIPTION_MIX_DOWN",
            KeyCode::KEYCODE_TV_AUDIO_DESCRIPTION_MIX_UP => "KEYCODE_TV_AUDIO_DESCRIPTION_MIX_UP",
            KeyCode::KEYCODE_TV_CONTENTS_MENU => "KEYCODE_TV_CONTENTS_MENU",
            KeyCode::KEYCODE_TV_DATA_SERVICE => "KEYCODE_TV_DATA_SERVICE",
            KeyCode::KEYCODE_TV_INPUT => "KEYCODE_TV_INPUT",
            KeyCode::KEYCODE_TV_INPUT_COMPONENT_1 => "KEYCODE_TV_INPUT_COMPONENT_1",
            KeyCode::KEYCODE_TV_INPUT_COMPONENT_2 => "KEYCODE_TV_INPUT_COMPONENT_2",
            KeyCode::KEYCODE_TV_INPUT_COMPOSITE_1 => "KEYCODE_TV_INPUT_COMPOSITE_1",
            KeyCode::KEYCODE_TV_INPUT_COMPOSITE_2 => "KEYCODE_TV_INPUT_COMPOSITE_2",
            KeyCode::KEYCODE_TV_INPUT_HDMI_1 => "KEYCODE_TV_INPUT_HDMI_1",
            KeyCode::KEYCODE_TV_INPUT_HDMI_2 => "KEYCODE_TV_INPUT_HDMI_2",
            KeyCode::KEYCODE_TV_INPUT_HDMI_3 => "KEYCODE_TV_INPUT_HDMI_3",
            KeyCode::KEYCODE_TV_INPUT_HDMI_4 => "KEYCODE_TV_INPUT_HDMI_4",
            KeyCode::KEYCODE_TV_INPUT_VGA_1 => "KEYCODE_TV_INPUT_VGA_1",
            KeyCode::KEYCODE_TV_MEDIA_CONTEXT_MENU => "KEYCODE_TV_MEDIA_CONTEXT_MENU",
            KeyCode::KEYCODE_TV_NETWORK => "KEYCODE_TV_NETWORK",
            KeyCode::KEYCODE_TV_NUMBER_ENTRY => "KEYCODE_TV_NUMBER_ENTRY",
            KeyCode::KEYCODE_TV_POWER => "KEYCODE_TV_POWER",
            KeyCode::KEYCODE_TV_RADIO_SERVICE => "KEYCODE_TV_RADIO_SERVICE",
            KeyCode::KEYCODE_TV_SATELLITE => "KEYCODE_TV_SATELLITE",
            KeyCode::KEYCODE_TV_SATELLITE_BS => "KEYCODE_TV_SATELLITE_BS",
            KeyCode::KEYCODE_TV_SATELLITE_CS => "KEYCODE_TV_SATELLITE_CS",
            KeyCode::KEYCODE_TV_SATELLITE_SERVICE => "KEYCODE_TV_SATELLITE_SERVICE",
            KeyCode::KEYCODE_TV_TELETEXT => "KEYCODE_TV_TELETEXT",
            KeyCode::KEYCODE_TV_TERRESTRIAL_ANALOG => "KEYCODE_TV_TERRESTRIAL_ANALOG",
            KeyCode::KEYCODE_TV_TERRESTRIAL_DIGITAL => "KEYCODE_TV_TERRESTRIAL_DIGITAL",
            KeyCode::KEYCODE_TV_TIMER_PROGRAMMING => "KEYCODE_TV_TIMER_PROGRAMMING",
            KeyCode::KEYCODE_TV_ZOOM_MODE => "KEYCODE_TV_ZOOM_MODE",
            KeyCode::KEYCODE_U => "KEYCODE_U",
            KeyCode::KEYCODE_UNKNOWN => "KEYCODE_UNKNOWN",
            KeyCode::KEYCODE_V => "KEYCODE_V",
            KeyCode::KEYCODE_VOICE_ASSIST => "KEYCODE_VOICE_ASSIST",
            KeyCode::KEYCODE_VOLUME_DOWN => "KEYCODE_VOLUME_DOWN",
            KeyCode::KEYCODE_VOLUME_MUTE => "KEYCODE_VOLUME_MUTE",
            KeyCode::KEYCODE_VOLUME_UP => "KEYCODE_VOLUME_UP",
            KeyCode::KEYCODE_W => "KEYCODE_W",
            KeyCode::KEYCODE_WAKEUP => "KEYCODE_WAKEUP",
            KeyCode::KEYCODE_WINDOW => "KEYCODE_WINDOW",
            KeyCode::KEYCODE_X => "KEYCODE_X",
            KeyCode::KEYCODE_Y => "KEYCODE_Y",
            KeyCode::KEYCODE_YEN => "KEYCODE_YEN",
            KeyCode::KEYCODE_Z => "KEYCODE_Z",
            KeyCode::KEYCODE_ZENKAKU_HANKAKU => "KEYCODE_ZENKAKU_HANKAKU",
            KeyCode::KEYCODE_ZOOM_IN => "KEYCODE_ZOOM_IN",
            KeyCode::KEYCODE_ZOOM_OUT => "KEYCODE_ZOOM_OUT",
        }
    }
}

} // verus!
