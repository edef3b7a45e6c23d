use vstd::prelude::*;

verus! {

/// An argument of an OSC message, as far as the bridge reads it: a 32-bit
/// integer, or anything else.
#[derive(Clone, Copy, Debug, PartialEq, Eq, Structural)]
pub enum Arg {
    Int(i32),
    Other,
}

/// An inbound OSC message: its address pattern and its arguments.
#[derive(Clone, Debug)]
pub struct CommandMessage {
    pub pattern: String,
    pub args: Vec<Arg>,
}

/// The device characteristic that a command is written to.
#[derive(Clone, Copy, Debug, PartialEq, Eq, Structural)]
pub enum CommandChannel {
    Motor,
    Light,
}

/// How a payload is written: motor commands are not acknowledged, light
/// commands are.
#[derive(Clone, Copy, Debug, PartialEq, Eq, Structural)]
pub enum WriteMode {
    WithoutResponse,
    WithResponse,
}

/// A write to be made on a device.
#[derive(Clone, Debug)]
pub struct DeviceWrite {
    pub channel: CommandChannel,
    pub mode: WriteMode,
    pub payload: Vec<u8>,
}

/// The characteristic that takes motor commands.
pub const MOTOR_CHARACTERISTIC: u128 = 0x10B20102_5B3B_4571_9508_CF3EFCD7BBAE;
/// The characteristic that takes light commands.
pub const LIGHT_CHARACTERISTIC: u128 = 0x10B20103_5B3B_4571_9508_CF3EFCD7BBAE;

impl CommandChannel {
    /// The identifier of the characteristic written to.
    pub fn uuid(&self) -> (r: u128)
        ensures
            r == match self {
                CommandChannel::Motor => MOTOR_CHARACTERISTIC,
                CommandChannel::Light => LIGHT_CHARACTERISTIC,
            },
    {
        match self {
            CommandChannel::Motor => MOTOR_CHARACTERISTIC,
            CommandChannel::Light => LIGHT_CHARACTERISTIC,
        }
    }
}

pub const MOTOR_OPCODE: u8 = 0x02;
pub const LIGHT_OPCODE: u8 = 0x03;
pub const LEFT_MOTOR: u8 = 0x01;
pub const RIGHT_MOTOR: u8 = 0x02;
pub const FORWARD: u8 = 0x01;
pub const REVERSE: u8 = 0x02;
pub const LED_INDEX: u8 = 0x01;
pub const LIGHT_RESERVED: u8 = 0x01;

/// The address pattern of a motor command.
pub open spec fn motor_pattern() -> Seq<char> {
    "/motor"@
}

/// The address pattern of a light command.
pub open spec fn light_pattern() -> Seq<char> {
    "/led"@
}

/// The low byte of `x` in two's complement, as an integer cast to a byte keeps it.
pub open spec fn low_byte(x: int) -> u8 {
    (x % 256) as u8
}

pub open spec fn abs(x: int) -> int {
    if x < 0 {
        -x
    } else {
        x
    }
}

/// `x / 10`, rounded toward zero.
pub open spec fn tenth(x: int) -> int {
    if x >= 0 {
        x / 10
    } else {
        -((-x) / 10)
    }
}

pub open spec fn direction(speed: int) -> u8 {
    if speed < 0 {
        REVERSE
    } else {
        FORWARD
    }
}

/// The motor write payload for the two wheel speeds and a duration in
/// centiseconds.
pub open spec fn motor_bytes(left: int, right: int, duration: int) -> Seq<u8> {
    seq![
        MOTOR_OPCODE,
        LEFT_MOTOR,
        direction(left),
        low_byte(abs(left)),
        RIGHT_MOTOR,
        direction(right),
        low_byte(abs(right)),
        low_byte(tenth(duration)),
    ]
}

/// The light write payload for a duration in centiseconds and a colour.
pub open spec fn light_bytes(duration: int, red: int, green: int, blue: int) -> Seq<u8> {
    seq![
        LIGHT_OPCODE,
        low_byte(tenth(duration)),
        LED_INDEX,
        LIGHT_RESERVED,
        low_byte(abs(red)),
        low_byte(abs(green)),
        low_byte(abs(blue)),
    ]
}

/// All arguments are integers.
pub open spec fn all_int(args: Seq<Arg>) -> bool {
    forall|i: int| 0 <= i < args.len() ==> args[i] is Int
}

pub open spec fn int_at(args: Seq<Arg>, i: int) -> int {
    match args[i] {
        Arg::Int(v) => v as int,
        Arg::Other => 0,
    }
}

/// The write that a command with this pattern and these arguments asks for:
/// a motor command takes exactly four integers (target, left speed, right
/// speed, duration), a light command exactly five (target, duration, red,
/// green, blue); anything else asks for none.
pub open spec fn command_write(pattern: Seq<char>, args: Seq<Arg>) -> Option<
    (CommandChannel, WriteMode, Seq<u8>),
> {
    if pattern == motor_pattern() && args.len() == 4 && all_int(args) {
        Some(
            (
                CommandChannel::Motor,
                WriteMode::WithoutResponse,
                motor_bytes(int_at(args, 1), int_at(args, 2), int_at(args, 3)),
            ),
        )
    } else if pattern == light_pattern() && args.len() == 5 && all_int(args) {
        Some(
            (
                CommandChannel::Light,
                WriteMode::WithResponse,
                light_bytes(int_at(args, 1), int_at(args, 2), int_at(args, 3), int_at(args, 4)),
            ),
        )
    } else {
        None
    }
}

impl DeviceWrite {
    pub open spec fn view(&self) -> (CommandChannel, WriteMode, Seq<u8>) {
        (self.channel, self.mode, self.payload@)
    }
}

/// The low byte of a non-negative value.
fn byte_of(v: u32) -> (r: u8)
    ensures
        r == low_byte(v as int),
{
    (v % 256) as u8
}

/// The byte that an integer magnitude is narrowed to: the low byte of its
/// absolute value.
pub fn magnitude_byte(x: i32) -> (r: u8)
    ensures
        r == low_byte(abs(x as int)),
{
    let m: u32 = if x < 0 {
        (-(x as i64)) as u32
    } else {
        x as u32
    };
    byte_of(m)
}

/// The byte that a duration in centiseconds is narrowed to: the low byte, in
/// two's complement, of a tenth of it rounded toward zero.
pub fn duration_byte(d: i32) -> (r: u8)
    ensures
        r == low_byte(tenth(d as int)),
{
    if d >= 0 {
        byte_of((d / 10) as u32)
    } else {
        let q: u32 = ((-(d as i64)) / 10) as u32;
        let m: u8 = byte_of(q);
        let r: u8 = if m == 0 {
            0
        } else {
            (256 - m as u32) as u8
        };
        assert(low_byte(-(q as int)) == r) by {
            assert(q as int % 256 == m);
        }
        r
    }
}

fn direction_byte(speed: i32) -> (r: u8)
    ensures
        r == direction(speed as int),
{
    if speed < 0 {
        REVERSE
    } else {
        FORWARD
    }
}

/// The motor write payload.
pub fn motor_payload(left: i32, right: i32, duration: i32) -> (r: Vec<u8>)
    ensures
        r@ == motor_bytes(left as int, right as int, duration as int),
{
    let r = vec![
        MOTOR_OPCODE,
        LEFT_MOTOR,
        direction_byte(left),
        magnitude_byte(left),
        RIGHT_MOTOR,
        direction_byte(right),
        magnitude_byte(right),
        duration_byte(duration),
    ];
    assert(r@ =~= motor_bytes(left as int, right as int, duration as int));
    r
}

/// The light write payload.
pub fn light_payload(duration: i32, red: i32, green: i32, blue: i32) -> (r: Vec<u8>)
    ensures
        r@ == light_bytes(duration as int, red as int, green as int, blue as int),
{
    let r = vec![
        LIGHT_OPCODE,
        duration_byte(duration),
        LED_INDEX,
        LIGHT_RESERVED,
        magnitude_byte(red),
        magnitude_byte(green),
        magnitude_byte(blue),
    ];
    assert(r@ =~= light_bytes(duration as int, red as int, green as int, blue as int));
    r
}

/// The arguments as integers, if all of them are.
fn int_args(args: &Vec<Arg>) -> (r: Option<Vec<i32>>)
    ensures
        r.is_some() == all_int(args@),
        r matches Some(v) ==> v@.len() == args@.len() && forall|i: int|
            0 <= i < args@.len() ==> v@[i] as int == int_at(args@, i),
{
    let mut out: Vec<i32> = Vec::new();
    let mut i: usize = 0;
    while i < args.len()
        invariant
            i <= args@.len(),
            out@.len() == i,
            forall|j: int| 0 <= j < i ==> #[trigger] args@[j] is Int,
            forall|j: int| 0 <= j < i ==> #[trigger] out@[j] as int == int_at(args@, j),
        decreases args@.len() - i,
    {
        let a = args[i];
        match a {
            Arg::Int(v) => {
                assert(args@[i as int] == Arg::Int(v));
                out.push(v);
                assert(out@[i as int] as int == int_at(args@, i as int));
            },
            Arg::Other => {
                assert(!(args@[i as int] is Int));
                return None;
            },
        }
        i = i + 1;
    }
    assert(all_int(args@));
    Some(out)
}

/// The device write that an inbound command asks for: the motor payload for
/// a motor command, the light payload for a light command, nothing for any
/// other message.
pub fn translate_command(msg: &CommandMessage) -> (r: Option<DeviceWrite>)
    ensures
        match command_write(msg.pattern@, msg.args@) {
            Some(w) => r matches Some(d) && d@ == w,
            None => r.is_none(),
        },
{
    let motor = "/motor".to_owned();
    let light = "/led".to_owned();
    let is_motor = msg.pattern == motor && msg.args.len() == 4;
    let is_light = msg.pattern == light && msg.args.len() == 5;
    if !is_motor && !is_light {
        proof {
            assert(motor@ == motor_pattern());
            assert(light@ == light_pattern());
        }
        return None;
    }
    match int_args(&msg.args) {
        None => None,
        Some(v) => {
            if is_motor {
                Some(
                    DeviceWrite {
                        channel: CommandChannel::Motor,
                        mode: WriteMode::WithoutResponse,
                        payload: motor_payload(v[1], v[2], v[3]),
                    },
                )
            } else {
                proof {
                    reveal_strlit("/motor");
                    reveal_strlit("/led");
                    assert(light_pattern().len() != motor_pattern().len());
                }
                Some(
                    DeviceWrite {
                        channel: CommandChannel::Light,
                        mode: WriteMode::WithResponse,
                        payload: light_payload(v[1], v[2], v[3], v[4]),
                    },
                )
            }
        },
    }
}

} // verus!
