use vstd::prelude::*;
use crate::message::{DeviceMessage, MessageModel};

verus! {

/// The JSON string literal that serde_json writes for `s`.
pub uninterp spec fn json_string_text(s: Seq<char>) -> Seq<char>;

/// Relies on serde_json::to_string applied to a `str`: it yields the quoted and
/// escaped JSON string literal for the text, and a function of the text alone.
#[verifier::external_body]
fn json_string(s: &str) -> (r: String)
    ensures
        r@ == json_string_text(s@),
{
    serde_json::to_string(s).unwrap_or_default()
}

/// The decimal digit for `d < 10`.
pub open spec fn digit_char(d: nat) -> char {
    if d == 0 {
        '0'
    } else if d == 1 {
        '1'
    } else if d == 2 {
        '2'
    } else if d == 3 {
        '3'
    } else if d == 4 {
        '4'
    } else if d == 5 {
        '5'
    } else if d == 6 {
        '6'
    } else if d == 7 {
        '7'
    } else if d == 8 {
        '8'
    } else {
        '9'
    }
}

/// Decimal notation of `n`, without leading zeros.
pub open spec fn decimal(n: nat) -> Seq<char>
    decreases n,
{
    if n < 10 {
        seq![digit_char(n)]
    } else {
        decimal(n / 10).push(digit_char(n % 10))
    }
}

/// The canonical text of a message: JSON with a fixed field order per kind.
pub open spec fn canonical_text(m: MessageModel) -> Seq<char> {
    match m {
        MessageModel::Lamp { color_temp, brightness, state } => "{\"color_temp\":"@ + decimal(
            color_temp as nat,
        ) + ",\"brightness\":"@ + decimal(brightness as nat) + ",\"state\":"@ + json_string_text(
            state,
        ) + "}"@,
        MessageModel::Switch { state } => "{\"state\":"@ + json_string_text(state) + "}"@,
        MessageModel::Dimmer { brightness, state } => "{\"brightness\":"@ + decimal(
            brightness as nat,
        ) + ",\"state\":"@ + json_string_text(state) + "}"@,
        MessageModel::Sensor { battery, humidity, linkquality, temperature, voltage } =>
            "{\"battery\":"@ + battery + ",\"humidity\":"@ + humidity + ",\"linkquality\":"@
            + decimal(linkquality as nat) + ",\"temperature\":"@ + temperature + ",\"voltage\":"@
            + decimal(voltage as nat) + "}"@,
    }
}

fn digit_str(d: u64) -> (r: &'static str)
    requires
        d < 10,
    ensures
        r@ == seq![digit_char(d as nat)],
{
    proof {
        reveal_strlit("0");
        reveal_strlit("1");
        reveal_strlit("2");
        reveal_strlit("3");
        reveal_strlit("4");
        reveal_strlit("5");
        reveal_strlit("6");
        reveal_strlit("7");
        reveal_strlit("8");
        reveal_strlit("9");
    }
    let r = if d == 0 {
        "0"
    } else if d == 1 {
        "1"
    } else if d == 2 {
        "2"
    } else if d == 3 {
        "3"
    } else if d == 4 {
        "4"
    } else if d == 5 {
        "5"
    } else if d == 6 {
        "6"
    } else if d == 7 {
        "7"
    } else if d == 8 {
        "8"
    } else {
        "9"
    };
    assert(r@ =~= seq![digit_char(d as nat)]);
    r
}

/// Appends the decimal notation of `n` to `out`.
pub fn write_decimal(out: &mut String, n: u64)
    ensures
        final(out)@ == old(out)@ + decimal(n as nat),
    decreases n,
{
    if n < 10 {
        out.append(digit_str(n));
    } else {
        write_decimal(out, n / 10);
        out.append(digit_str(n % 10));
        assert(decimal(n as nat) == decimal((n / 10) as nat).push(digit_char((n % 10) as nat)));
        assert(old(out)@ + decimal(n as nat) =~= old(out)@ + decimal((n / 10) as nat) + seq![
            digit_char((n % 10) as nat),
        ]);
    }
}

/// Appends the JSON string literal for `s` to `out`.
fn write_json_string(out: &mut String, s: &String)
    ensures
        final(out)@ == old(out)@ + json_string_text(s@),
{
    let q = json_string(s.as_str());
    out.append(q.as_str());
}

impl DeviceMessage {
    /// The canonical text of this message, used to store and compare states.
    pub fn to_json(&self) -> (r: String)
        ensures
            r@ == canonical_text(self@),
    {
        match self {
            DeviceMessage::LampRGB(m) => {
                let mut out = String::from_str("{\"color_temp\":");
                write_decimal(&mut out, m.color_temp as u64);
                out.append(",\"brightness\":");
                write_decimal(&mut out, m.brightness as u64);
                out.append(",\"state\":");
                write_json_string(&mut out, &m.state);
                out.append("}");
                out
            },
            DeviceMessage::InterSwitch(m) => {
                let mut out = String::from_str("{\"state\":");
                write_json_string(&mut out, &m.state);
                out.append("}");
                out
            },
            DeviceMessage::InterDim(m) => {
                let mut out = String::from_str("{\"brightness\":");
                write_decimal(&mut out, m.brightness as u64);
                out.append(",\"state\":");
                write_json_string(&mut out, &m.state);
                out.append("}");
                out
            },
            DeviceMessage::TempSensor(m) => {
                let mut out = String::from_str("{\"battery\":");
                out.append(m.battery.as_str());
                out.append(",\"humidity\":");
                out.append(m.humidity.as_str());
                out.append(",\"linkquality\":");
                write_decimal(&mut out, m.linkquality as u64);
                out.append(",\"temperature\":");
                out.append(m.temperature.as_str());
                out.append(",\"voltage\":");
                write_decimal(&mut out, m.voltage as u64);
                out.append("}");
                out
            },
        }
    }
}

} // verus!
