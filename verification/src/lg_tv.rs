//! The IP Control protocol: the commands sent to the TV, the reading of its
//! replies, and the decisions of the power procedures.
use vstd::prelude::*;

use crate::constants::errors::{IntErrorKind, LgTvError};
use crate::constants::types::{
    AppDetails, Apps, ConnectionType, EnergySavingLevels, Inputs, Keys, PictureModes, PowerStates,
    ScreenMuteModes, VolumeLevel,
};
use crate::encryption::{
    is_outside_error_text, malformed_iv_message, terminator_message, Encryption, EncryptionError,
    MAX_CIPHER_INPUT, MAX_MESSAGE_LEN,
};
use crate::text::{
    all_decimal_digits, char_in_class, chars_of, concat_str, decimal, decimal_string, in_class,
    is_white_space, is_whitespace, lemma_decimal_spells, numeral_value, spec_trim,
    string_from_chars, trim_chars, DIGIT_CLASS, WORD_CLASS,
};

verus! {

/// The command that asks for the application currently shown.
pub const CURRENT_APP_COMMAND: &'static str = "CURRENT_APP";

/// The command that asks for the current volume.
pub const CURRENT_VOLUME_COMMAND: &'static str = "CURRENT_VOL";

/// The command that asks whether IP control is enabled.
pub const IP_CONTROL_STATE_COMMAND: &'static str = "GET_IPCONTROL_STATE";

/// The command that asks whether the sound is muted.
pub const MUTE_STATE_COMMAND: &'static str = "MUTE_STATE";

/// The command that turns the TV off.
pub const POWER_OFF_COMMAND: &'static str = "POWER off";

/// `APP_LAUNCH` with the application's identifier.
pub fn launch_app_command(app: Apps) -> (s: String)
    ensures
        s@ == "APP_LAUNCH "@ + app.spec_as_str(),
{
    concat_str("APP_LAUNCH ", app.as_str())
}

/// `PICTURE_MODE` with the mode's name.
pub fn picture_mode_command(mode: PictureModes) -> (s: String)
    ensures
        s@ == "PICTURE_MODE "@ + mode.spec_as_str(),
{
    concat_str("PICTURE_MODE ", mode.as_str())
}

/// `KEY_ACTION` with the key's name.
pub fn key_command(key: Keys) -> (s: String)
    ensures
        s@ == "KEY_ACTION "@ + key.spec_as_str(),
{
    concat_str("KEY_ACTION ", key.as_str())
}

/// `SCREEN_MUTE` with the mode's name.
pub fn screen_mute_command(mode: ScreenMuteModes) -> (s: String)
    ensures
        s@ == "SCREEN_MUTE "@ + mode.spec_as_str(),
{
    concat_str("SCREEN_MUTE ", mode.as_str())
}

/// `ENERGY_SAVING` with the level's name.
pub fn energy_saving_command(level: EnergySavingLevels) -> (s: String)
    ensures
        s@ == "ENERGY_SAVING "@ + level.spec_as_str(),
{
    concat_str("ENERGY_SAVING ", level.as_str())
}

/// `INPUT_SELECT` with the input's name.
pub fn input_command(input: Inputs) -> (s: String)
    ensures
        s@ == "INPUT_SELECT "@ + input.spec_as_str(),
{
    concat_str("INPUT_SELECT ", input.as_str())
}

/// `VOLUME_CONTROL` with the level in decimal.
pub fn volume_command(level: VolumeLevel) -> (s: String)
    ensures
        s@ == "VOLUME_CONTROL "@ + decimal(level.level() as nat),
{
    let digits = decimal_string(level.value() as u16);
    concat_str("VOLUME_CONTROL ", digits.as_str())
}

/// `VOLUME_MUTE on` when muting, `VOLUME_MUTE off` otherwise.
pub fn volume_mute_command(is_muted: bool) -> (s: String)
    ensures
        s@ == "VOLUME_MUTE "@ + (if is_muted { "on"@ } else { "off"@ }),
{
    let action = if is_muted { "on" } else { "off" };
    concat_str("VOLUME_MUTE ", action)
}

/// `GET_MACADDRESS` with the interface's name.
pub fn mac_address_command(connection_type: ConnectionType) -> (s: String)
    ensures
        s@ == "GET_MACADDRESS "@ + connection_type.spec_name(),
{
    concat_str("GET_MACADDRESS ", connection_type.name())
}

/// A character that may stand in a key of the `CURRENT_APP` reply: a word
/// character or whitespace (`[\w\s]`, where `\s` is White_Space).
pub open spec fn is_key_char(c: char) -> bool {
    in_class(WORD_CLASS, c) || is_white_space(c)
}

/// A character that may stand in a value of the `CURRENT_APP` reply: anything
/// but whitespace (`\S`).
pub open spec fn is_value_char(c: char) -> bool {
    !is_white_space(c)
}

/// The end of the run of key characters of `t` that starts at `i`.
pub open spec fn key_run_end(t: Seq<char>, i: int) -> int
    decreases t.len() - i,
{
    if 0 <= i < t.len() && is_key_char(t[i]) {
        key_run_end(t, i + 1)
    } else {
        i
    }
}

/// The end of the run of value characters of `t` that starts at `i`.
pub open spec fn value_run_end(t: Seq<char>, i: int) -> int
    decreases t.len() - i,
{
    if 0 <= i < t.len() && is_value_char(t[i]) {
        value_run_end(t, i + 1)
    } else {
        i
    }
}

/// A `key:value` pair (`([\w\s]+):(\S+)`) starts at position `s` of `t`.
pub open spec fn pair_at(t: Seq<char>, s: int) -> bool {
    let e = key_run_end(t, s);
    &&& 0 <= s < t.len()
    &&& is_key_char(t[s])
    &&& e + 1 < t.len()
    &&& t[e] == ':'
    &&& is_value_char(t[e + 1])
}

pub proof fn lemma_key_run_end(t: Seq<char>, i: int)
    requires
        0 <= i <= t.len(),
    ensures
        i <= key_run_end(t, i) <= t.len(),
        forall|k: int| i <= k < key_run_end(t, i) ==> is_key_char(#[trigger] t[k]),
        key_run_end(t, i) < t.len() ==> !is_key_char(t[key_run_end(t, i)]),
    decreases t.len() - i,
{
    if i < t.len() && is_key_char(t[i]) {
        lemma_key_run_end(t, i + 1);
    }
}

pub proof fn lemma_value_run_end(t: Seq<char>, i: int)
    requires
        0 <= i <= t.len(),
    ensures
        i <= value_run_end(t, i) <= t.len(),
        forall|k: int| i <= k < value_run_end(t, i) ==> is_value_char(#[trigger] t[k]),
        value_run_end(t, i) < t.len() ==> !is_value_char(t[value_run_end(t, i)]),
    decreases t.len() - i,
{
    if i < t.len() && is_value_char(t[i]) {
        lemma_value_run_end(t, i + 1);
    }
}

/// The `(key, value)` captures of `([\w\s]+):(\S+)` found in `t` from
/// position `p` on, leftmost first and without overlap, as
/// `Regex::captures_iter` yields them.
pub open spec fn pairs_from(t: Seq<char>, p: int) -> Seq<(Seq<char>, Seq<char>)>
    decreases t.len() - p,
{
    if p < 0 || p >= t.len() {
        seq![]
    } else if pair_at(t, p) {
        let e = key_run_end(t, p);
        let f = value_run_end(t, e + 1);
        proof {
            lemma_key_run_end(t, p);
            lemma_value_run_end(t, e + 1);
        }
        seq![(t.subrange(p, e), t.subrange(e + 1, f))] + pairs_from(t, f)
    } else {
        pairs_from(t, p + 1)
    }
}

/// The value of the last pair whose trimmed key is `key`, or the empty text
/// when there is none.
pub open spec fn field_value(pairs: Seq<(Seq<char>, Seq<char>)>, key: Seq<char>) -> Seq<char>
    decreases pairs.len(),
{
    if pairs.len() == 0 {
        Seq::empty()
    } else if spec_trim(pairs.last().0) == key {
        pairs.last().1
    } else {
        field_value(pairs.drop_last(), key)
    }
}

/// A new last pair decides the field of its key, and leaves the others.
proof fn lemma_field_value_push(
    pairs: Seq<(Seq<char>, Seq<char>)>,
    pair: (Seq<char>, Seq<char>),
    key: Seq<char>,
)
    ensures
        field_value(pairs.push(pair), key) == (if spec_trim(pair.0) == key {
            pair.1
        } else {
            field_value(pairs, key)
        }),
{
    assert(pairs.push(pair).drop_last() =~= pairs);
}

/// The application details that a non-empty `CURRENT_APP` reply describes.
pub open spec fn app_details_of(reply: Seq<char>) -> (Seq<char>, Seq<char>, Seq<char>, Seq<char>, Seq<char>) {
    let pairs = pairs_from(reply, 0);
    (
        field_value(pairs, "APP"@),
        field_value(pairs, "Hot plug"@),
        field_value(pairs, "Signal"@),
        field_value(pairs, "HDCP"@),
        field_value(pairs, "HDCP Status"@),
    )
}

/// The tuple of the fields of `d`, in declaration order.
pub open spec fn details_view(d: AppDetails) -> (Seq<char>, Seq<char>, Seq<char>, Seq<char>, Seq<char>) {
    (d.app@, d.hot_plug@, d.signal@, d.hdcp_version@, d.hdcp_status@)
}

fn key_run_end_exec(t: &[char], i: usize) -> (e: usize)
    requires
        i <= t.len(),
    ensures
        e == key_run_end(t@, i as int),
{
    let mut e = i;
    while e < t.len() && (char_in_class(WORD_CLASS, t[e]) || is_whitespace(t[e]))
        invariant
            i <= e <= t.len(),
            key_run_end(t@, i as int) == key_run_end(t@, e as int),
        decreases t.len() - e,
    {
        e = e + 1;
    }
    e
}

fn value_run_end_exec(t: &[char], i: usize) -> (f: usize)
    requires
        i <= t.len(),
    ensures
        f == value_run_end(t@, i as int),
{
    let mut f = i;
    while f < t.len() && !is_whitespace(t[f])
        invariant
            i <= f <= t.len(),
            value_run_end(t@, i as int) == value_run_end(t@, f as int),
        decreases t.len() - f,
    {
        f = f + 1;
    }
    f
}

/// Reads the reply to `CURRENT_APP`. An empty reply means that the TV is
/// off; otherwise each field holds the value of the last `key:value` pair
/// with its key, or is empty.
pub fn parse_current_app(reply: &str) -> (r: Result<AppDetails, LgTvError>)
    ensures
        reply@.len() == 0 ==> r matches Err(LgTvError::PowerOff),
        reply@.len() != 0 ==> (r matches Ok(d) && details_view(d) == app_details_of(reply@)),
{
    if reply.is_empty() {
        return Err(LgTvError::PowerOff);
    }
    let t = chars_of(reply);
    let n = t.len();
    let app_key = String::from_str("APP");
    let hot_plug_key = String::from_str("Hot plug");
    let signal_key = String::from_str("Signal");
    let hdcp_key = String::from_str("HDCP");
    let hdcp_status_key = String::from_str("HDCP Status");
    let mut app = String::new();
    let mut hot_plug = String::new();
    let mut signal = String::new();
    let mut hdcp_version = String::new();
    let mut hdcp_status = String::new();
    let ghost all = pairs_from(t@, 0);
    let ghost mut seen: Seq<(Seq<char>, Seq<char>)> = Seq::empty();
    let mut p: usize = 0;
    while p < n
        invariant
            n == t@.len(),
            t@ == reply@,
            p <= n,
            all == seen + pairs_from(t@, p as int),
            app_key@ == "APP"@,
            hot_plug_key@ == "Hot plug"@,
            signal_key@ == "Signal"@,
            hdcp_key@ == "HDCP"@,
            hdcp_status_key@ == "HDCP Status"@,
            app@ == field_value(seen, "APP"@),
            hot_plug@ == field_value(seen, "Hot plug"@),
            signal@ == field_value(seen, "Signal"@),
            hdcp_version@ == field_value(seen, "HDCP"@),
            hdcp_status@ == field_value(seen, "HDCP Status"@),
        decreases n - p,
    {
        let starts_pair = char_in_class(WORD_CLASS, t[p]) || is_whitespace(t[p]);
        let mut found = false;
        if starts_pair {
            let e = key_run_end_exec(t.as_slice(), p);
            proof {
                lemma_key_run_end(t@, p as int);
            }
            if e < n && e + 1 < n && t[e] == ':' && !is_whitespace(t[e + 1]) {
                let f = value_run_end_exec(t.as_slice(), e + 1);
                proof {
                    lemma_value_run_end(t@, e + 1);
                }
                let key = trim_chars(t.as_slice(), p, e);
                let value = string_from_chars(crate::text::slice_subrange(t.as_slice(), e + 1, f));
                let ghost pair = (t@.subrange(p as int, e as int), t@.subrange(e + 1, f as int));
                proof {
                    assert(pair_at(t@, p as int));
                    assert(pairs_from(t@, p as int) == seq![pair] + pairs_from(t@, f as int));
                    assert(seen + pairs_from(t@, p as int) =~= seen.push(pair) + pairs_from(
                        t@,
                        f as int,
                    ));
                    assert(seen.push(pair).drop_last() =~= seen);
                }
                let ghost before = seen;
                proof {
                    seen = seen.push(pair);
                }
                if key == app_key {
                    app = value;
                } else if key == hot_plug_key {
                    hot_plug = value;
                } else if key == signal_key {
                    signal = value;
                } else if key == hdcp_key {
                    hdcp_version = value;
                } else if key == hdcp_status_key {
                    hdcp_status = value;
                }
                proof {
                    reveal_strlit("APP");
                    reveal_strlit("Hot plug");
                    reveal_strlit("Signal");
                    reveal_strlit("HDCP");
                    reveal_strlit("HDCP Status");
                    assert(key@ == spec_trim(pair.0) && value@ == pair.1);
                    lemma_field_value_push(before, pair, "APP"@);
                    lemma_field_value_push(before, pair, "Hot plug"@);
                    lemma_field_value_push(before, pair, "Signal"@);
                    lemma_field_value_push(before, pair, "HDCP"@);
                    lemma_field_value_push(before, pair, "HDCP Status"@);
                }
                p = f;
                found = true;
            }
        }
        if !found {
            proof {
                assert(!pair_at(t@, p as int));
            }
            p = p + 1;
        }
    }
    proof {
        assert(seen + pairs_from(t@, p as int) =~= seen);
    }
    Ok(AppDetails { app, hot_plug, signal, hdcp_version, hdcp_status })
}

/// An ASCII decimal digit.
pub open spec fn is_ascii_digit(c: char) -> bool {
    '0' <= c <= '9'
}

/// What `str::parse::<u8>` gives for a text without sign: the digits are
/// read from the left; the first character that is not an ASCII digit, or
/// the first digit after which the number exceeds 255, decides the error.
pub open spec fn parse_u8_digits(s: Seq<char>) -> Result<u8, IntErrorKind>
    decreases s.len(),
{
    if s.len() == 0 {
        Ok(0u8)
    } else {
        match parse_u8_digits(s.drop_last()) {
            Err(k) => Err(k),
            Ok(v) => if !is_ascii_digit(s.last()) {
                Err(IntErrorKind::InvalidDigit)
            } else if v * 10 + (s.last() as int - 48) > 255 {
                Err(IntErrorKind::PosOverflow)
            } else {
                Ok((v * 10 + (s.last() as int - 48)) as u8)
            },
        }
    }
}

/// The reply has the form `VOL:` followed by one or more decimal digits
/// (`^VOL:(\d+)$`, where `\d` is the regular-expression class).
pub open spec fn is_volume_reply(t: Seq<char>) -> bool {
    &&& t.len() > 4
    &&& t.take(4) == "VOL:"@
    &&& forall|i: int| 4 <= i < t.len() ==> in_class(DIGIT_CLASS, #[trigger] t[i])
}

/// The answer to a `CURRENT_VOL` reply.
pub open spec fn volume_of(t: Seq<char>) -> Result<u8, LgTvError> {
    if is_volume_reply(t) {
        match parse_u8_digits(t.skip(4)) {
            Ok(v) => Ok(v),
            Err(k) => Err(LgTvError::ParseInt(k)),
        }
    } else {
        Err(LgTvError::ParseVolumeError)
    }
}

/// Reading a text of ASCII decimal digits gives the number that it spells,
/// or `PosOverflow` when that number exceeds 255.
pub proof fn lemma_parse_u8_reads_numerals(s: Seq<char>)
    requires
        all_decimal_digits(s),
    ensures
        numeral_value(s) >= 0,
        parse_u8_digits(s) == (if numeral_value(s) <= 255 {
            Ok::<u8, IntErrorKind>(numeral_value(s) as u8)
        } else {
            Err(IntErrorKind::PosOverflow)
        }),
    decreases s.len(),
{
    if s.len() > 0 {
        let p = s.drop_last();
        assert(all_decimal_digits(p)) by {
            assert forall|i: int| 0 <= i < p.len() implies '0' <= #[trigger] p[i] <= '9' by {
                assert(p[i] == s[i]);
            }
        }
        lemma_parse_u8_reads_numerals(p);
        assert('0' <= s[s.len() - 1] <= '9');
    }
}

/// A character that is not an ASCII digit, after digits that read at most
/// 255, makes the reading fail with `InvalidDigit`, whatever follows.
pub proof fn lemma_parse_u8_rejects_non_digit(p: Seq<char>, c: char, rest: Seq<char>)
    requires
        all_decimal_digits(p),
        numeral_value(p) <= 255,
        !('0' <= c <= '9'),
    ensures
        parse_u8_digits(p + seq![c] + rest) == Err::<u8, IntErrorKind>(IntErrorKind::InvalidDigit),
{
    lemma_parse_u8_reads_numerals(p);
    let s = p + seq![c] + rest;
    assert(s.take(p.len() + 1int).drop_last() =~= p);
    assert(s.take(p.len() + 1int).last() == c);
    lemma_parse_error_stays(s, p.len() + 1int);
}

/// Every volume level comes back from its decimal text: the digits of `n`
/// read as `n`, and, the ASCII digits being in the class `\d`, so does the
/// reply `VOL:` followed by them.
pub proof fn lemma_volume_reply_reads_back(n: u8)
    ensures
        parse_u8_digits(decimal(n as nat)) == Ok::<u8, IntErrorKind>(n),
        (forall|c: char| '0' <= c <= '9' ==> #[trigger] in_class(DIGIT_CLASS, c)) ==> volume_of(
            "VOL:"@ + decimal(n as nat),
        ) == Ok::<u8, LgTvError>(n),
{
    lemma_decimal_spells(n as nat);
    lemma_parse_u8_reads_numerals(decimal(n as nat));
    let t = "VOL:"@ + decimal(n as nat);
    reveal_strlit("VOL:");
    assert(t.take(4) =~= "VOL:"@);
    assert(t.skip(4) =~= decimal(n as nat));
    if forall|c: char| '0' <= c <= '9' ==> #[trigger] in_class(DIGIT_CLASS, c) {
        assert forall|i: int| 4 <= i < t.len() implies in_class(DIGIT_CLASS, #[trigger] t[i]) by {
            assert(t[i] == decimal(n as nat)[i - 4]);
        }
    }
}

/// Reads a decimal number as `str::parse::<u8>` does, for texts without sign.
pub fn parse_u8(s: &[char]) -> (r: Result<u8, IntErrorKind>)
    ensures
        r == parse_u8_digits(s@),
{
    let mut v: u8 = 0;
    let mut i: usize = 0;
    while i < s.len()
        invariant
            i <= s.len(),
            parse_u8_digits(s@.take(i as int)) == Ok::<u8, IntErrorKind>(v),
        decreases s.len() - i,
    {
        let c = s[i];
        assert(s@.take(i + 1).drop_last() =~= s@.take(i as int));
        assert(s@.take(i + 1).last() == c);
        if !('0' <= c && c <= '9') {
            proof {
                lemma_parse_error_stays(s@, i as int + 1);
            }
            return Err(IntErrorKind::InvalidDigit);
        }
        let d: u32 = (c as u32) - 48;
        let next: u32 = (v as u32) * 10 + d;
        if next > 255 {
            proof {
                lemma_parse_error_stays(s@, i as int + 1);
            }
            return Err(IntErrorKind::PosOverflow);
        }
        v = next as u8;
        i = i + 1;
    }
    assert(s@.take(s.len() as int) =~= s@);
    Ok(v)
}

/// Once the digits read so far give an error, the whole text gives it.
proof fn lemma_parse_error_stays(s: Seq<char>, k: int)
    requires
        0 <= k <= s.len(),
        parse_u8_digits(s.take(k)) is Err,
    ensures
        parse_u8_digits(s) == parse_u8_digits(s.take(k)),
    decreases s.len() - k,
{
    if k < s.len() {
        assert(s.take(k + 1).drop_last() =~= s.take(k));
        lemma_parse_error_stays(s, k + 1);
    } else {
        assert(s.take(k) =~= s);
    }
}

/// Reads the reply to `CURRENT_VOL`.
pub fn parse_current_volume(reply: &str) -> (r: Result<u8, LgTvError>)
    ensures
        r == volume_of(reply@),
{
    let t = chars_of(reply);
    proof {
        reveal_strlit("VOL:");
    }
    if t.len() <= 4 || t[0] != 'V' || t[1] != 'O' || t[2] != 'L' || t[3] != ':' {
        proof {
            if t@.len() > 4 {
                assert(t@.take(4)[0] == t@[0]);
                assert(t@.take(4)[1] == t@[1]);
                assert(t@.take(4)[2] == t@[2]);
                assert(t@.take(4)[3] == t@[3]);
            }
        }
        return Err(LgTvError::ParseVolumeError);
    }
    assert(t@.take(4) =~= "VOL:"@);
    let mut i: usize = 4;
    while i < t.len()
        invariant
            4 <= i <= t.len(),
            t@ == reply@,
            t@.take(4) == "VOL:"@,
            forall|j: int| 4 <= j < i ==> in_class(DIGIT_CLASS, #[trigger] t@[j]),
        decreases t.len() - i,
    {
        if !char_in_class(DIGIT_CLASS, t[i]) {
            return Err(LgTvError::ParseVolumeError);
        }
        i = i + 1;
    }
    let digits = crate::text::slice_subrange(t.as_slice(), 4, t.len());
    assert(digits@ =~= t@.skip(4));
    match parse_u8(digits) {
        Ok(v) => Ok(v),
        Err(k) => Err(LgTvError::ParseInt(k)),
    }
}

/// The answer to a `MUTE_STATE` reply: a reply `MUTE:` followed by a state
/// gives `true` for `on`, `false` for `off`, and `UnknownMuteState` for any
/// other state; a reply of another form gives `UnableToParseMuteState`.
pub open spec fn mute_state_of(t: Seq<char>) -> Result<bool, LgTvError> {
    if t.len() > 5 && t.take(5) == "MUTE:"@ {
        let state = t.skip(5);
        if state == "on"@ {
            Ok(true)
        } else if state == "off"@ {
            Ok(false)
        } else {
            Err(LgTvError::UnknownMuteState)
        }
    } else {
        Err(LgTvError::UnableToParseMuteState)
    }
}

/// Reads the reply to `MUTE_STATE`.
pub fn parse_mute_state(reply: &str) -> (r: Result<bool, LgTvError>)
    ensures
        r == mute_state_of(reply@),
{
    let t = chars_of(reply);
    proof {
        reveal_strlit("MUTE:");
    }
    if t.len() <= 5 || t[0] != 'M' || t[1] != 'U' || t[2] != 'T' || t[3] != 'E' || t[4] != ':' {
        proof {
            if t@.len() > 5 {
                assert(t@.take(5)[0] == t@[0]);
                assert(t@.take(5)[1] == t@[1]);
                assert(t@.take(5)[2] == t@[2]);
                assert(t@.take(5)[3] == t@[3]);
                assert(t@.take(5)[4] == t@[4]);
            }
        }
        return Err(LgTvError::UnableToParseMuteState);
    }
    assert(t@.take(5) =~= "MUTE:"@);
    let state = string_from_chars(crate::text::slice_subrange(t.as_slice(), 5, t.len()));
    assert(state@ =~= t@.skip(5));
    if state == String::from_str("on") {
        Ok(true)
    } else if state == String::from_str("off") {
        Ok(false)
    } else {
        Err(LgTvError::UnknownMuteState)
    }
}

/// Reads the reply to `GET_IPCONTROL_STATE`: IP control is on exactly when
/// the reply is `ON`.
pub fn parse_ip_control_state(reply: &str) -> (on: bool)
    ensures
        on == (reply@ == "ON"@),
{
    String::from_str(reply) == String::from_str("ON")
}

/// The encryption for the TV's key code; without a key code, `MissingKeyCode`.
pub fn encryption_for_key(key: Option<&str>) -> (r: Result<Encryption, LgTvError>)
    requires
        key matches Some(k) ==> vstd::utf8::encode_utf8(k@).len() <= i32::MAX,
    ensures
        key is None <==> r matches Err(LgTvError::MissingKeyCode),
        r matches Ok(e) ==> e.key_code() == key->0@,
        r is Ok || r matches Err(LgTvError::MissingKeyCode),
{
    match key {
        Some(k) => Ok(Encryption::new(String::from_str(k))),
        None => Err(LgTvError::MissingKeyCode),
    }
}

/// Encrypts a command for the TV. A command that holds the terminator gives
/// `EncryptionError` with the reason (unless the random source failed
/// first); any other `EncryptionError` carries the text of a failure of
/// OpenSSL or of the random source.
pub fn encrypt_command(encryption: &Encryption, command: &str) -> (r: Result<Vec<u8>, LgTvError>)
    requires
        vstd::utf8::encode_utf8(command@).len() <= MAX_MESSAGE_LEN,
    ensures
        command@.contains('\r') ==> (r matches Err(LgTvError::EncryptionError(m)) && (m@
            == terminator_message() || is_outside_error_text(m))),
        r matches Err(LgTvError::EncryptionError(m)) ==> (!command@.contains('\r')
            ==> is_outside_error_text(m)),
        r matches Err(e) ==> e is EncryptionError,
        r matches Ok(v) ==> exists|iv: Seq<u8>|
            iv.len() == 16 && v@ == #[trigger] encryption.ciphertext(
                iv,
                crate::encryption::plaintext_of(command@),
            ),
{
    match encryption.encrypt(command) {
        Ok(encrypted) => Ok(encrypted),
        Err(error) => Err(LgTvError::EncryptionError(error.message())),
    }
}

/// The reason given for a reply too short to hold the encrypted IV.
pub open spec fn short_reply_message() -> Seq<char> {
    "reply is shorter than the encrypted IV"@
}

/// The reason given for a reply too long to be handed to the cipher.
pub open spec fn long_reply_message() -> Seq<char> {
    "reply is too long to decrypt"@
}

/// Decrypts a reply of the TV. A reply shorter than the encrypted IV (16
/// bytes), one too long for the cipher, or an OpenSSL failure gives
/// `DecryptionError` with the reason.
pub fn decrypt_reply(encryption: &Encryption, reply: &[u8]) -> (r: Result<String, LgTvError>)
    ensures
        reply.len() < 16 ==> (r matches Err(LgTvError::DecryptionError(m)) && m@
            == short_reply_message()),
        reply.len() > MAX_CIPHER_INPUT ==> (r matches Err(LgTvError::DecryptionError(m)) && m@
            == long_reply_message()),
        r matches Ok(text) ==> 16 <= reply.len() <= MAX_CIPHER_INPUT && text@
            == encryption.plaintext_text(reply@),
        r matches Err(LgTvError::DecryptionError(m)) ==> (16 <= reply.len() <= MAX_CIPHER_INPUT
            ==> (is_outside_error_text(m) || (m@ == malformed_iv_message()
            && encryption.decrypted_iv(reply@).len() != 16))),
        r matches Err(e) ==> e is DecryptionError,
{
    if reply.len() < 16 {
        return Err(LgTvError::DecryptionError(String::from_str("reply is shorter than the encrypted IV")));
    }
    if reply.len() > MAX_CIPHER_INPUT {
        return Err(LgTvError::DecryptionError(String::from_str("reply is too long to decrypt")));
    }
    match encryption.decrypt(reply) {
        Ok(text) => Ok(text),
        Err(error) => Err(LgTvError::DecryptionError(error.message())),
    }
}

/// From any position inside the key, the run of key characters of
/// `k + ":" + v` ends at the colon.
proof fn lemma_key_run_to_colon(k: Seq<char>, v: Seq<char>, i: int)
    requires
        0 <= i <= k.len(),
        forall|j: int|
            0 <= j < k.len() ==> in_class(WORD_CLASS, #[trigger] k[j]) || is_white_space(k[j]),
        !in_class(WORD_CLASS, ':'),
    ensures
        key_run_end(k + seq![':'] + v, i) == k.len(),
    decreases k.len() - i,
{
    let t = k + seq![':'] + v;
    if i < k.len() {
        assert(t[i] == k[i]);
        lemma_key_run_to_colon(k, v, i + 1);
    } else {
        assert(t[i] == ':');
    }
}

/// From any position inside the value, the run of value characters of
/// `k + ":" + v` reaches the end of the text.
proof fn lemma_value_run_to_end(k: Seq<char>, v: Seq<char>, i: int)
    requires
        k.len() + 1 <= i <= k.len() + 1 + v.len(),
        forall|j: int| 0 <= j < v.len() ==> !is_white_space(#[trigger] v[j]),
    ensures
        value_run_end(k + seq![':'] + v, i) == k.len() + 1 + v.len(),
    decreases k.len() + 1 + v.len() - i,
{
    let t = k + seq![':'] + v;
    if i < t.len() {
        assert(t[i] == v[i - k.len() - 1]);
        lemma_value_run_to_end(k, v, i + 1);
    }
}

/// A reply made of a key of word characters and whitespace, a colon and a
/// value without whitespace is read as that one pair, whose value is
/// everything after the colon; the field of the key's trimmed name is that
/// value. (The colon is not a word character, as in the class `\w`.)
pub proof fn lemma_single_pair_reply(k: Seq<char>, v: Seq<char>)
    requires
        k.len() > 0,
        forall|j: int|
            0 <= j < k.len() ==> in_class(WORD_CLASS, #[trigger] k[j]) || is_white_space(k[j]),
        !in_class(WORD_CLASS, ':'),
        v.len() > 0,
        forall|j: int| 0 <= j < v.len() ==> !is_white_space(#[trigger] v[j]),
    ensures
        pairs_from(k + seq![':'] + v, 0) == seq![(k, v)],
        field_value(pairs_from(k + seq![':'] + v, 0), spec_trim(k)) == v,
        spec_trim(k) == "APP"@ ==> app_details_of(k + seq![':'] + v).0 == v,
{
    let t = k + seq![':'] + v;
    lemma_key_run_to_colon(k, v, 0);
    lemma_value_run_to_end(k, v, k.len() + 1int);
    assert(t[0] == k[0]);
    assert(t[k.len() as int] == ':');
    assert(t[k.len() + 1int] == v[0]);
    assert(pair_at(t, 0));
    assert(t.subrange(0, k.len() as int) =~= k);
    assert(t.subrange(k.len() + 1int, t.len() as int) =~= v);
    assert(pairs_from(t, t.len() as int) == Seq::<(Seq<char>, Seq<char>)>::empty());
    assert(pairs_from(t, 0) =~= seq![(k, v)]);
    assert(seq![(k, v)].drop_last() =~= Seq::<(Seq<char>, Seq<char>)>::empty());
}

} // verus!
