use vstd::prelude::*;
use vstd::string::StringExecFns;

use crate::config::Settings;
use crate::motors::MotorConfig;
use crate::text::{dec_rep, u64_to_dec};

verus! {

/// The lines describing the node configuration, ready to log.
pub open spec fn settings_lines(s: Settings) -> Seq<Seq<char>> {
    seq![
        "-------- Node Configuration --------"@,
        " Config file : "@ + s.config_path@,
        " Serial port : "@ + s.port@,
        " Baudrate    : "@ + dec_rep(s.baudrate as nat),
        " Timeout     : "@ + dec_rep(s.timeout_ms as nat) + " ms"@,
    ]
}

/// Renders the node configuration, one line per setting.
pub fn log_settings(settings: &Settings) -> (lines: Vec<String>)
    ensures
        lines@.len() == settings_lines(*settings).len(),
        forall|i: int|
            0 <= i < lines@.len() ==> (#[trigger] lines@[i])@ == settings_lines(*settings)[i],
{
    let mut lines: Vec<String> = Vec::new();
    lines.push(String::from_str("-------- Node Configuration --------"));
    lines.push(String::from_str(" Config file : ").concat(settings.config_path.as_str()));
    lines.push(String::from_str(" Serial port : ").concat(settings.port.as_str()));
    let baud = u64_to_dec(settings.baudrate as u64);
    lines.push(String::from_str(" Baudrate    : ").concat(baud.as_str()));
    let timeout = u64_to_dec(settings.timeout_ms);
    lines.push(String::from_str(" Timeout     : ").concat(timeout.as_str()).concat(" ms"));
    proof {
        assert(lines@.len() == settings_lines(*settings).len());
        assert forall|i: int| 0 <= i < lines@.len() implies (#[trigger] lines@[i])@
            == settings_lines(*settings)[i] by {
            assert(lines@[1]@ =~= " Config file : "@ + settings.config_path@);
            assert(lines@[2]@ =~= " Serial port : "@ + settings.port@);
            assert(lines@[3]@ =~= " Baudrate    : "@ + dec_rep(settings.baudrate as nat));
            assert(lines@[4]@ =~= " Timeout     : "@ + dec_rep(settings.timeout_ms as nat)
                + " ms"@);
        }
    }
    lines
}

/// The line describing one actuator.
pub open spec fn motor_line(m: MotorConfig) -> Seq<char> {
    " - "@ + m.joint_name@ + " | id="@ + dec_rep(m.id as nat) + " type="@ + m.motor_type@
}

/// Renders one actuator's line.
fn render_motor_line(m: &MotorConfig) -> (line: String)
    ensures
        line@ == motor_line(*m),
{
    let id = u64_to_dec(m.id as u64);
    let line = String::from_str(" - ").concat(m.joint_name.as_str()).concat(" | id=").concat(
        id.as_str(),
    ).concat(" type=").concat(m.motor_type.as_str());
    proof {
        assert(line@ =~= motor_line(*m));
    }
    line
}

/// Renders the loaded registry: a header, the count of actuators, one
/// line per actuator in registry order, and a footer.
pub fn log_motors(motors: &Vec<MotorConfig>) -> (lines: Vec<String>)
    ensures
        lines@.len() == motors@.len() + 3,
        lines@[0]@ == "-------- Motor Configuration -------"@,
        lines@[1]@ == " Loaded "@ + dec_rep(motors@.len()) + " motors:"@,
        forall|i: int|
            0 <= i < motors@.len() ==> (#[trigger] lines@[i + 2])@ == motor_line(motors@[i]),
        lines@[motors@.len() as int + 2]@ == "------------------------------------"@,
{
    let mut lines: Vec<String> = Vec::new();
    lines.push(String::from_str("-------- Motor Configuration -------"));
    let count = u64_to_dec(motors.len() as u64);
    let count_line = String::from_str(" Loaded ").concat(count.as_str()).concat(" motors:");
    proof {
        assert(count_line@ =~= " Loaded "@ + dec_rep(motors@.len()) + " motors:"@);
    }
    lines.push(count_line);
    let mut i: usize = 0;
    while i < motors.len()
        invariant
            i <= motors@.len(),
            lines@.len() == i + 2,
            lines@[0]@ == "-------- Motor Configuration -------"@,
            lines@[1]@ == " Loaded "@ + dec_rep(motors@.len()) + " motors:"@,
            forall|j: int|
                0 <= j < i ==> (#[trigger] lines@[j + 2])@ == motor_line(motors@[j]),
        decreases motors@.len() - i,
    {
        lines.push(render_motor_line(&motors[i]));
        i = i + 1;
    }
    lines.push(String::from_str("------------------------------------"));
    lines
}

} // verus!
