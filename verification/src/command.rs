//! The command vocabulary and its wire encoding.
//!
//! Every vehicle instruction is a value of [`TelloCommand`]; the wire form is
//! the ASCII keyword of the instruction followed by its space-separated
//! decimal (or single-character) parameters, with no trailing terminator.
//! [`spec_command_text`] states that mapping at the character level and
//! [`spec_encoding`] gives the resulting UTF-8 bytes; [`get_tello_command_data`]
//! is the executable encoder, proved to produce exactly those bytes.
use vstd::prelude::*;
use vstd::string::StrSliceExecFns;
use vstd::string::StringExecFns;
use vstd::utf8::encode_utf8;

verus! {

/// One vehicle instruction, encoded to a fixed ASCII wire string by
/// [`get_tello_command_data`]. Numeric parameters are distances in
/// centimetres, angles in degrees or a speed; the flip parameter is the
/// single direction character the protocol expects. Parameter ranges are not
/// validated here: the vehicle itself rejects out-of-range values.
#[allow(inconsistent_fields)]
pub enum TelloCommand {
    /// Handshake: enter command mode (`command`).
    SetSDK,
    /// Take off (`takeoff`).
    Takeoff,
    /// Land (`land`).
    Land,
    /// Start the video stream (`streamon`).
    StreamOn,
    /// Stop the video stream (`streamoff`).
    StreamOff,
    /// Immediately stop all motors (`emergency`).
    Emergency,
    /// Ascend by `x` (`up <x>`).
    Up { x: u32 },
    /// Descend by `x` (`down <x>`).
    Down { x: u32 },
    /// Fly left by `x` (`left <x>`).
    Left { x: u32 },
    /// Fly right by `x` (`right <x>`).
    Right { x: u32 },
    /// Fly forward by `x` (`forward <x>`).
    Forward { x: u32 },
    /// Fly backward by `x` (`back <x>`).
    Back { x: u32 },
    /// Rotate clockwise by `x` degrees (`cw <x>`).
    RotateCW { x: u32 },
    /// Rotate counter-clockwise by `x` degrees (`ccw <x>`).
    RotateCCW { x: u32 },
    /// Flip in direction `x` (`flip <x>`).
    Flip { x: char },
    /// Fly to the offset `(x, y, z)` at `speed` (`go <x> <y> <z> <speed>`).
    Go { x: u32, y: u32, z: u32, speed: u32 },
    /// Stop in place and hover (`stop`).
    Stop,
    /// Query the current speed (`speed?`).
    ReadSpeed,
    /// Query the battery percentage (`battery?`).
    ReadBatt,
    /// Query the accumulated flight time (`time?`).
    ReadFlightTime,
    /// Query the Wi-Fi signal-to-noise ratio (`wifi?`).
    ReadWifi,
    /// Query the SDK version (`sdk?`).
    ReadSdk,
    /// Query the serial number (`sn?`).
    ReadSerial,
}

/// The ASCII digit for a single decimal digit value.
pub open spec fn spec_digit(d: nat) -> char {
    if d == 0 {
        '0'
    } else if d == 1 {
        '1'
    } else if d == 2 {
        '2'
    } else if d == 3 {
        '3'
    } else if d == 4 {
        '4'
    } else if d == 5 {
        '5'
    } else if d == 6 {
        '6'
    } else if d == 7 {
        '7'
    } else if d == 8 {
        '8'
    } else {
        '9'
    }
}

/// The usual decimal rendering of `n`: most significant digit first, no sign,
/// no leading zeros (a single `'0'` for zero).
pub open spec fn spec_decimal(n: nat) -> Seq<char>
    decreases n,
{
    if n < 10 {
        seq![spec_digit(n)]
    } else {
        spec_decimal(n / 10).push(spec_digit(n % 10))
    }
}

/// The keyword that opens the wire string of a command.
pub open spec fn spec_keyword(c: TelloCommand) -> Seq<char> {
    match c {
        TelloCommand::SetSDK => seq!['c', 'o', 'm', 'm', 'a', 'n', 'd'],
        TelloCommand::Takeoff => seq!['t', 'a', 'k', 'e', 'o', 'f', 'f'],
        TelloCommand::Land => seq!['l', 'a', 'n', 'd'],
        TelloCommand::StreamOn => seq!['s', 't', 'r', 'e', 'a', 'm', 'o', 'n'],
        TelloCommand::StreamOff => seq!['s', 't', 'r', 'e', 'a', 'm', 'o', 'f', 'f'],
        TelloCommand::Emergency => seq!['e', 'm', 'e', 'r', 'g', 'e', 'n', 'c', 'y'],
        TelloCommand::Up { .. } => seq!['u', 'p'],
        TelloCommand::Down { .. } => seq!['d', 'o', 'w', 'n'],
        TelloCommand::Left { .. } => seq!['l', 'e', 'f', 't'],
        TelloCommand::Right { .. } => seq!['r', 'i', 'g', 'h', 't'],
        TelloCommand::Forward { .. } => seq!['f', 'o', 'r', 'w', 'a', 'r', 'd'],
        TelloCommand::Back { .. } => seq!['b', 'a', 'c', 'k'],
        TelloCommand::RotateCW { .. } => seq!['c', 'w'],
        TelloCommand::RotateCCW { .. } => seq!['c', 'c', 'w'],
        TelloCommand::Flip { .. } => seq!['f', 'l', 'i', 'p'],
        TelloCommand::Go { .. } => seq!['g', 'o'],
        TelloCommand::Stop => seq!['s', 't', 'o', 'p'],
        TelloCommand::ReadSpeed => seq!['s', 'p', 'e', 'e', 'd', '?'],
        TelloCommand::ReadBatt => seq!['b', 'a', 't', 't', 'e', 'r', 'y', '?'],
        TelloCommand::ReadFlightTime => seq!['t', 'i', 'm', 'e', '?'],
        TelloCommand::ReadWifi => seq!['w', 'i', 'f', 'i', '?'],
        TelloCommand::ReadSdk => seq!['s', 'd', 'k', '?'],
        TelloCommand::ReadSerial => seq!['s', 'n', '?'],
    }
}

/// The parameter list that follows the keyword: empty for parameterless
/// commands, otherwise each parameter preceded by one space.
pub open spec fn spec_args(c: TelloCommand) -> Seq<char> {
    match c {
        TelloCommand::Up { x } => seq![' '] + spec_decimal(x as nat),
        TelloCommand::Down { x } => seq![' '] + spec_decimal(x as nat),
        TelloCommand::Left { x } => seq![' '] + spec_decimal(x as nat),
        TelloCommand::Right { x } => seq![' '] + spec_decimal(x as nat),
        TelloCommand::Forward { x } => seq![' '] + spec_decimal(x as nat),
        TelloCommand::Back { x } => seq![' '] + spec_decimal(x as nat),
        TelloCommand::RotateCW { x } => seq![' '] + spec_decimal(x as nat),
        TelloCommand::RotateCCW { x } => seq![' '] + spec_decimal(x as nat),
        TelloCommand::Flip { x } => seq![' ', x],
        TelloCommand::Go { x, y, z, speed } => seq![' '] + (spec_decimal(x as nat) + (seq![' ']
            + (spec_decimal(y as nat) + (seq![' '] + (spec_decimal(z as nat) + (seq![' ']
            + spec_decimal(speed as nat))))))),
        _ => Seq::<char>::empty(),
    }
}

/// The full wire string of a command, as characters.
pub open spec fn spec_command_text(c: TelloCommand) -> Seq<char> {
    spec_keyword(c) + spec_args(c)
}

/// The full wire string of a command, as the bytes put on the wire.
pub open spec fn spec_encoding(c: TelloCommand) -> Seq<u8> {
    encode_utf8(spec_command_text(c))
}

/// Relies on `String::push`: appends exactly the given character.
#[verifier::external_body]
fn push_char(s: &mut String, c: char)
    ensures
        final(s)@ == old(s)@ + seq![c],
{
    s.push(c);
}

fn push_digit(s: &mut String, d: u32)
    requires
        d < 10,
    ensures
        final(s)@ == old(s)@ + seq![spec_digit(d as nat)],
{
    let c: char = match d {
        0 => '0',
        1 => '1',
        2 => '2',
        3 => '3',
        4 => '4',
        5 => '5',
        6 => '6',
        7 => '7',
        8 => '8',
        _ => '9',
    };
    push_char(s, c);
}

fn push_decimal(s: &mut String, n: u32)
    ensures
        final(s)@ == old(s)@ + spec_decimal(n as nat),
    decreases n,
{
    if n >= 10 {
        push_decimal(s, n / 10);
        push_digit(s, n % 10);
        proof {
            assert(final(s)@ =~= old(s)@ + spec_decimal(n as nat));
        }
    } else {
        push_digit(s, n);
    }
}

/// The wire string of a command, as text.
pub fn command_text(command: &TelloCommand) -> (s: String)
    ensures
        s@ == spec_command_text(*command),
{
    let mut s = String::new();
    match command {
        TelloCommand::SetSDK => {
            s.append("command");
            proof {
                reveal_strlit("command");
                assert(s@ =~= spec_command_text(*command));
            }
        },
        TelloCommand::Takeoff => {
            s.append("takeoff");
            proof {
                reveal_strlit("takeoff");
                assert(s@ =~= spec_command_text(*command));
            }
        },
        TelloCommand::Land => {
            s.append("land");
            proof {
                reveal_strlit("land");
                assert(s@ =~= spec_command_text(*command));
            }
        },
        TelloCommand::StreamOn => {
            s.append("streamon");
            proof {
                reveal_strlit("streamon");
                assert(s@ =~= spec_command_text(*command));
            }
        },
        TelloCommand::StreamOff => {
            s.append("streamoff");
            proof {
                reveal_strlit("streamoff");
                assert(s@ =~= spec_command_text(*command));
            }
        },
        TelloCommand::Emergency => {
            s.append("emergency");
            proof {
                reveal_strlit("emergency");
                assert(s@ =~= spec_command_text(*command));
            }
        },
        TelloCommand::Up { x } => {
            s.append("up ");
            push_decimal(&mut s, *x);
            proof {
                reveal_strlit("up ");
                assert(s@ =~= spec_command_text(*command));
            }
        },
        TelloCommand::Down { x } => {
            s.append("down ");
            push_decimal(&mut s, *x);
            proof {
                reveal_strlit("down ");
                assert(s@ =~= spec_command_text(*command));
            }
        },
        TelloCommand::Left { x } => {
            s.append("left ");
            push_decimal(&mut s, *x);
            proof {
                reveal_strlit("left ");
                assert(s@ =~= spec_command_text(*command));
            }
        },
        TelloCommand::Right { x } => {
            s.append("right ");
            push_decimal(&mut s, *x);
            proof {
                reveal_strlit("right ");
                assert(s@ =~= spec_command_text(*command));
            }
        },
        TelloCommand::Forward { x } => {
            s.append("forward ");
            push_decimal(&mut s, *x);
            proof {
                reveal_strlit("forward ");
                assert(s@ =~= spec_command_text(*command));
            }
        },
        TelloCommand::Back { x } => {
            s.append("back ");
            push_decimal(&mut s, *x);
            proof {
                reveal_strlit("back ");
                assert(s@ =~= spec_command_text(*command));
            }
        },
        TelloCommand::RotateCW { x } => {
            s.append("cw ");
            push_decimal(&mut s, *x);
            proof {
                reveal_strlit("cw ");
                assert(s@ =~= spec_command_text(*command));
            }
        },
        TelloCommand::RotateCCW { x } => {
            s.append("ccw ");
            push_decimal(&mut s, *x);
            proof {
                reveal_strlit("ccw ");
                assert(s@ =~= spec_command_text(*command));
            }
        },
        TelloCommand::Flip { x } => {
            s.append("flip ");
            push_char(&mut s, *x);
            proof {
                reveal_strlit("flip ");
                assert(s@ =~= spec_command_text(*command));
            }
        },
        TelloCommand::Go { x, y, z, speed } => {
            s.append("go ");
            push_decimal(&mut s, *x);
            s.append(" ");
            push_decimal(&mut s, *y);
            s.append(" ");
            push_decimal(&mut s, *z);
            s.append(" ");
            push_decimal(&mut s, *speed);
            proof {
                reveal_strlit("go ");
                reveal_strlit(" ");
                assert(s@ =~= spec_command_text(*command));
            }
        },
        TelloCommand::Stop => {
            s.append("stop");
            proof {
                reveal_strlit("stop");
                assert(s@ =~= spec_command_text(*command));
            }
        },
        TelloCommand::ReadSpeed => {
            s.append("speed?");
            proof {
                reveal_strlit("speed?");
                assert(s@ =~= spec_command_text(*command));
            }
        },
        TelloCommand::ReadBatt => {
            s.append("battery?");
            proof {
                reveal_strlit("battery?");
                assert(s@ =~= spec_command_text(*command));
            }
        },
        TelloCommand::ReadFlightTime => {
            s.append("time?");
            proof {
                reveal_strlit("time?");
                assert(s@ =~= spec_command_text(*command));
            }
        },
        TelloCommand::ReadWifi => {
            s.append("wifi?");
            proof {
                reveal_strlit("wifi?");
                assert(s@ =~= spec_command_text(*command));
            }
        },
        TelloCommand::ReadSdk => {
            s.append("sdk?");
            proof {
                reveal_strlit("sdk?");
                assert(s@ =~= spec_command_text(*command));
            }
        },
        TelloCommand::ReadSerial => {
            s.append("sn?");
            proof {
                reveal_strlit("sn?");
                assert(s@ =~= spec_command_text(*command));
            }
        },
    }
    s
}

/// True when no character of `s` is the space that separates wire-format
/// fields.
pub open spec fn space_free(s: Seq<char>) -> bool {
    forall|i: int| 0 <= i < s.len() ==> s[i] != ' '
}

/// The length of a command's keyword; agrees with `spec_keyword` and serves,
/// with the first two characters, to tell the keywords apart.
spec fn kw_len(c: TelloCommand) -> int {
    match c {
        TelloCommand::SetSDK => 7,
        TelloCommand::Takeoff => 7,
        TelloCommand::Land => 4,
        TelloCommand::StreamOn => 8,
        TelloCommand::StreamOff => 9,
        TelloCommand::Emergency => 9,
        TelloCommand::Up { .. } => 2,
        TelloCommand::Down { .. } => 4,
        TelloCommand::Left { .. } => 4,
        TelloCommand::Right { .. } => 5,
        TelloCommand::Forward { .. } => 7,
        TelloCommand::Back { .. } => 4,
        TelloCommand::RotateCW { .. } => 2,
        TelloCommand::RotateCCW { .. } => 3,
        TelloCommand::Flip { .. } => 4,
        TelloCommand::Go { .. } => 2,
        TelloCommand::Stop => 4,
        TelloCommand::ReadSpeed => 6,
        TelloCommand::ReadBatt => 8,
        TelloCommand::ReadFlightTime => 5,
        TelloCommand::ReadWifi => 5,
        TelloCommand::ReadSdk => 4,
        TelloCommand::ReadSerial => 3,
    }
}

/// The first character of a command's keyword.
spec fn kw0(c: TelloCommand) -> char {
    match c {
        TelloCommand::SetSDK => 'c',
        TelloCommand::Takeoff => 't',
        TelloCommand::Land => 'l',
        TelloCommand::StreamOn => 's',
        TelloCommand::StreamOff => 's',
        TelloCommand::Emergency => 'e',
        TelloCommand::Up { .. } => 'u',
        TelloCommand::Down { .. } => 'd',
        TelloCommand::Left { .. } => 'l',
        TelloCommand::Right { .. } => 'r',
        TelloCommand::Forward { .. } => 'f',
        TelloCommand::Back { .. } => 'b',
        TelloCommand::RotateCW { .. } => 'c',
        TelloCommand::RotateCCW { .. } => 'c',
        TelloCommand::Flip { .. } => 'f',
        TelloCommand::Go { .. } => 'g',
        TelloCommand::Stop => 's',
        TelloCommand::ReadSpeed => 's',
        TelloCommand::ReadBatt => 'b',
        TelloCommand::ReadFlightTime => 't',
        TelloCommand::ReadWifi => 'w',
        TelloCommand::ReadSdk => 's',
        TelloCommand::ReadSerial => 's',
    }
}

/// The second character of a command's keyword.
spec fn kw1(c: TelloCommand) -> char {
    match c {
        TelloCommand::SetSDK => 'o',
        TelloCommand::Takeoff => 'a',
        TelloCommand::Land => 'a',
        TelloCommand::StreamOn => 't',
        TelloCommand::StreamOff => 't',
        TelloCommand::Emergency => 'm',
        TelloCommand::Up { .. } => 'p',
        TelloCommand::Down { .. } => 'o',
        TelloCommand::Left { .. } => 'e',
        TelloCommand::Right { .. } => 'i',
        TelloCommand::Forward { .. } => 'o',
        TelloCommand::Back { .. } => 'a',
        TelloCommand::RotateCW { .. } => 'w',
        TelloCommand::RotateCCW { .. } => 'c',
        TelloCommand::Flip { .. } => 'l',
        TelloCommand::Go { .. } => 'o',
        TelloCommand::Stop => 't',
        TelloCommand::ReadSpeed => 'p',
        TelloCommand::ReadBatt => 'a',
        TelloCommand::ReadFlightTime => 'i',
        TelloCommand::ReadWifi => 'i',
        TelloCommand::ReadSdk => 'd',
        TelloCommand::ReadSerial => 'n',
    }
}

/// A decimal rendering is never empty, never contains the field separator,
/// and has a single digit exactly for values under ten.
proof fn lemma_decimal_shape(n: nat)
    ensures
        spec_decimal(n).len() >= 1,
        n >= 10 ==> spec_decimal(n).len() >= 2,
        space_free(spec_decimal(n)),
    decreases n,
{
    if n < 10 {
        assert(spec_decimal(n) == seq![spec_digit(n)]);
    } else {
        lemma_decimal_shape(n / 10);
        assert(forall|i: int|
            0 <= i < spec_decimal(n).len() ==> spec_decimal(n)[i] != ' ') by {
            assert(forall|i: int|
                0 <= i < spec_decimal(n / 10).len() ==> spec_decimal(n)[i] == spec_decimal(
                    n / 10,
                )[i]);
        }
    }
}

/// Distinct values have distinct decimal renderings.
proof fn lemma_decimal_injective(a: nat, b: nat)
    requires
        spec_decimal(a) == spec_decimal(b),
    ensures
        a == b,
    decreases a,
{
    lemma_decimal_shape(a);
    lemma_decimal_shape(b);
    if a < 10 && b < 10 {
        assert(spec_decimal(a)[0] == spec_digit(a));
        assert(spec_decimal(b)[0] == spec_digit(b));
        assert(a == b);
    } else if a >= 10 && b >= 10 {
        let da = spec_decimal(a / 10);
        let db = spec_decimal(b / 10);
        assert(da.push(spec_digit(a % 10)) == db.push(spec_digit(b % 10)));
        assert(da.len() == db.len());
        assert(da.push(spec_digit(a % 10))[da.len() as int] == spec_digit(a % 10));
        assert(db.push(spec_digit(b % 10))[db.len() as int] == spec_digit(b % 10));
        assert(a % 10 == b % 10);
        assert(da =~= db) by {
            assert(forall|i: int| 0 <= i < da.len() ==> da.push(spec_digit(a % 10))[i] == da[i]);
            assert(forall|i: int| 0 <= i < db.len() ==> db.push(spec_digit(b % 10))[i] == db[i]);
        }
        lemma_decimal_injective(a / 10, b / 10);
    } else {
        // one rendering has one digit, the other at least two
        assert(false);
    }
}

/// The keyword of every command is at least two characters, contains no
/// separator, and is pinned down by its length and first two characters;
/// the argument part is empty or opens with the separator.
proof fn lemma_command_shape(c: TelloCommand)
    ensures
        spec_keyword(c).len() == kw_len(c),
        kw_len(c) >= 2,
        spec_keyword(c)[0] == kw0(c),
        spec_keyword(c)[1] == kw1(c),
        space_free(spec_keyword(c)),
        spec_args(c).len() == 0 || spec_args(c)[0] == ' ',
{
    match c {
        TelloCommand::Up { x } => {
            lemma_decimal_shape(x as nat);
        },
        TelloCommand::Down { x } => {
            lemma_decimal_shape(x as nat);
        },
        TelloCommand::Left { x } => {
            lemma_decimal_shape(x as nat);
        },
        TelloCommand::Right { x } => {
            lemma_decimal_shape(x as nat);
        },
        TelloCommand::Forward { x } => {
            lemma_decimal_shape(x as nat);
        },
        TelloCommand::Back { x } => {
            lemma_decimal_shape(x as nat);
        },
        TelloCommand::RotateCW { x } => {
            lemma_decimal_shape(x as nat);
        },
        TelloCommand::RotateCCW { x } => {
            lemma_decimal_shape(x as nat);
        },
        _ => {},
    }
}

/// Removing the same left part of two equal concatenations leaves equal
/// right parts.
proof fn lemma_concat_cancel_left(s: Seq<char>, p: Seq<char>, q: Seq<char>)
    requires
        s + p == s + q,
    ensures
        p == q,
{
    assert((s + p).len() == s.len() + p.len());
    assert((s + q).len() == s.len() + q.len());
    assert(p.len() == q.len());
    assert forall|i: int| 0 <= i < p.len() implies p[i] == q[i] by {
        assert((s + p)[s.len() + i] == p[i]);
        assert((s + q)[s.len() + i] == q[i]);
    }
    assert(p =~= q);
}

/// Two equal concatenations split the same way when each left part is
/// separator-free and each right part is empty or opens with the separator:
/// the separator pins the split point.
proof fn lemma_space_sep_cancel(p1: Seq<char>, r1: Seq<char>, p2: Seq<char>, r2: Seq<char>)
    requires
        p1 + r1 == p2 + r2,
        space_free(p1),
        space_free(p2),
        r1.len() == 0 || r1[0] == ' ',
        r2.len() == 0 || r2[0] == ' ',
    ensures
        p1 == p2,
        r1 == r2,
{
    let n1 = p1.len() as int;
    let n2 = p2.len() as int;
    assert((p1 + r1).len() == n1 + r1.len());
    assert((p2 + r2).len() == n2 + r2.len());
    assert((p1 + r1).len() == (p2 + r2).len());
    if n1 < n2 {
        assert((p1 + r1)[n1] == r1[0]);
        assert((p2 + r2)[n1] == p2[n1]);
        assert(false);
    }
    if n2 < n1 {
        assert((p2 + r2)[n2] == r2[0]);
        assert((p1 + r1)[n2] == p1[n2]);
        assert(false);
    }
    assert forall|i: int| 0 <= i < n1 implies p1[i] == p2[i] by {
        assert((p1 + r1)[i] == p1[i]);
        assert((p2 + r2)[i] == p2[i]);
    }
    assert(p1 =~= p2);
    assert(r1.len() == r2.len());
    assert forall|i: int| 0 <= i < r1.len() implies r1[i] == r2[i] by {
        assert((p1 + r1)[n1 + i] == r1[i]);
        assert((p2 + r2)[n2 + i] == r2[i]);
    }
    assert(r1 =~= r2);
}

/// No two distinct commands share a wire encoding: the byte sequence put on
/// the wire determines the command, parameters included.
pub proof fn lemma_encoding_injective(a: TelloCommand, b: TelloCommand)
    requires
        spec_encoding(a) == spec_encoding(b),
    ensures
        a == b,
{
    assert(spec_command_text(a) == spec_command_text(b)) by {
        vstd::utf8::encode_utf8_decode_utf8(spec_command_text(a));
        vstd::utf8::encode_utf8_decode_utf8(spec_command_text(b));
    }
    lemma_command_shape(a);
    lemma_command_shape(b);
    lemma_space_sep_cancel(spec_keyword(a), spec_args(a), spec_keyword(b), spec_args(b));
    assert(kw_len(a) == kw_len(b));
    assert(kw0(a) == kw0(b)) by {
        assert(spec_keyword(a)[0] == spec_keyword(b)[0]);
    }
    assert(kw1(a) == kw1(b)) by {
        assert(spec_keyword(a)[1] == spec_keyword(b)[1]);
    }
    match a {
        TelloCommand::SetSDK => {
            assert(a == b);
        },
        TelloCommand::Takeoff => {
            assert(a == b);
        },
        TelloCommand::Land => {
            assert(a == b);
        },
        TelloCommand::StreamOn => {
            assert(a == b);
        },
        TelloCommand::StreamOff => {
            assert(a == b);
        },
        TelloCommand::Emergency => {
            assert(a == b);
        },
        TelloCommand::Stop => {
            assert(a == b);
        },
        TelloCommand::ReadSpeed => {
            assert(a == b);
        },
        TelloCommand::ReadBatt => {
            assert(a == b);
        },
        TelloCommand::ReadFlightTime => {
            assert(a == b);
        },
        TelloCommand::ReadWifi => {
            assert(a == b);
        },
        TelloCommand::ReadSdk => {
            assert(a == b);
        },
        TelloCommand::ReadSerial => {
            assert(a == b);
        },
        TelloCommand::Up { x } => {
            match b {
                TelloCommand::Up { x: x2 } => {
                    lemma_concat_cancel_left(
                        seq![' '],
                        spec_decimal(x as nat),
                        spec_decimal(x2 as nat),
                    );
                    lemma_decimal_injective(x as nat, x2 as nat);
                    assert(a == b);
                },
                _ => {
                    assert(false);
                },
            }
        },
        TelloCommand::Down { x } => {
            match b {
                TelloCommand::Down { x: x2 } => {
                    lemma_concat_cancel_left(
                        seq![' '],
                        spec_decimal(x as nat),
                        spec_decimal(x2 as nat),
                    );
                    lemma_decimal_injective(x as nat, x2 as nat);
                    assert(a == b);
                },
                _ => {
                    assert(false);
                },
            }
        },
        TelloCommand::Left { x } => {
            match b {
                TelloCommand::Left { x: x2 } => {
                    lemma_concat_cancel_left(
                        seq![' '],
                        spec_decimal(x as nat),
                        spec_decimal(x2 as nat),
                    );
                    lemma_decimal_injective(x as nat, x2 as nat);
                    assert(a == b);
                },
                _ => {
                    assert(false);
                },
            }
        },
        TelloCommand::Right { x } => {
            match b {
                TelloCommand::Right { x: x2 } => {
                    lemma_concat_cancel_left(
                        seq![' '],
                        spec_decimal(x as nat),
                        spec_decimal(x2 as nat),
                    );
                    lemma_decimal_injective(x as nat, x2 as nat);
                    assert(a == b);
                },
                _ => {
                    assert(false);
                },
            }
        },
        TelloCommand::Forward { x } => {
            match b {
                TelloCommand::Forward { x: x2 } => {
                    lemma_concat_cancel_left(
                        seq![' '],
                        spec_decimal(x as nat),
                        spec_decimal(x2 as nat),
                    );
                    lemma_decimal_injective(x as nat, x2 as nat);
                    assert(a == b);
                },
                _ => {
                    assert(false);
                },
            }
        },
        TelloCommand::Back { x } => {
            match b {
                TelloCommand::Back { x: x2 } => {
                    lemma_concat_cancel_left(
                        seq![' '],
                        spec_decimal(x as nat),
                        spec_decimal(x2 as nat),
                    );
                    lemma_decimal_injective(x as nat, x2 as nat);
                    assert(a == b);
                },
                _ => {
                    assert(false);
                },
            }
        },
        TelloCommand::RotateCW { x } => {
            match b {
                TelloCommand::RotateCW { x: x2 } => {
                    lemma_concat_cancel_left(
                        seq![' '],
                        spec_decimal(x as nat),
                        spec_decimal(x2 as nat),
                    );
                    lemma_decimal_injective(x as nat, x2 as nat);
                    assert(a == b);
                },
                _ => {
                    assert(false);
                },
            }
        },
        TelloCommand::RotateCCW { x } => {
            match b {
                TelloCommand::RotateCCW { x: x2 } => {
                    lemma_concat_cancel_left(
                        seq![' '],
                        spec_decimal(x as nat),
                        spec_decimal(x2 as nat),
                    );
                    lemma_decimal_injective(x as nat, x2 as nat);
                    assert(a == b);
                },
                _ => {
                    assert(false);
                },
            }
        },
        TelloCommand::Flip { x } => {
            match b {
                TelloCommand::Flip { x: x2 } => {
                    assert(spec_args(a)[1] == x);
                    assert(spec_args(b)[1] == x2);
                    assert(a == b);
                },
                _ => {
                    assert(false);
                },
            }
        },
        TelloCommand::Go { x, y, z, speed } => {
            match b {
                TelloCommand::Go { x: x2, y: y2, z: z2, speed: speed2 } => {
                    lemma_go_args_injective(x, y, z, speed, x2, y2, z2, speed2);
                    assert(a == b);
                },
                _ => {
                    assert(false);
                },
            }
        },
    }
}

/// The space-separated parameter list of a compound-motion command
/// determines all four parameters.
proof fn lemma_go_args_injective(
    x: u32,
    y: u32,
    z: u32,
    speed: u32,
    x2: u32,
    y2: u32,
    z2: u32,
    speed2: u32,
)
    requires
        spec_args(TelloCommand::Go { x, y, z, speed }) == spec_args(
            TelloCommand::Go { x: x2, y: y2, z: z2, speed: speed2 },
        ),
    ensures
        x == x2,
        y == y2,
        z == z2,
        speed == speed2,
{
    lemma_decimal_shape(x as nat);
    lemma_decimal_shape(y as nat);
    lemma_decimal_shape(z as nat);
    lemma_decimal_shape(speed as nat);
    lemma_decimal_shape(x2 as nat);
    lemma_decimal_shape(y2 as nat);
    lemma_decimal_shape(z2 as nat);
    lemma_decimal_shape(speed2 as nat);
    let ta = spec_decimal(x as nat) + (seq![' '] + (spec_decimal(y as nat) + (seq![' ']
        + (spec_decimal(z as nat) + (seq![' '] + spec_decimal(speed as nat))))));
    let tb = spec_decimal(x2 as nat) + (seq![' '] + (spec_decimal(y2 as nat) + (seq![' ']
        + (spec_decimal(z2 as nat) + (seq![' '] + spec_decimal(speed2 as nat))))));
    lemma_concat_cancel_left(seq![' '], ta, tb);
    let ra = seq![' '] + (spec_decimal(y as nat) + (seq![' '] + (spec_decimal(z as nat) + (
    seq![' '] + spec_decimal(speed as nat)))));
    let rb = seq![' '] + (spec_decimal(y2 as nat) + (seq![' '] + (spec_decimal(z2 as nat) + (
    seq![' '] + spec_decimal(speed2 as nat)))));
    assert(ra[0] == ' ');
    assert(rb[0] == ' ');
    lemma_space_sep_cancel(spec_decimal(x as nat), ra, spec_decimal(x2 as nat), rb);
    lemma_decimal_injective(x as nat, x2 as nat);
    lemma_concat_cancel_left(
        seq![' '],
        spec_decimal(y as nat) + (seq![' '] + (spec_decimal(z as nat) + (seq![' ']
            + spec_decimal(speed as nat)))),
        spec_decimal(y2 as nat) + (seq![' '] + (spec_decimal(z2 as nat) + (seq![' ']
            + spec_decimal(speed2 as nat)))),
    );
    let sa = seq![' '] + (spec_decimal(z as nat) + (seq![' '] + spec_decimal(speed as nat)));
    let sb = seq![' '] + (spec_decimal(z2 as nat) + (seq![' '] + spec_decimal(speed2 as nat)));
    assert(sa[0] == ' ');
    assert(sb[0] == ' ');
    lemma_space_sep_cancel(spec_decimal(y as nat), sa, spec_decimal(y2 as nat), sb);
    lemma_decimal_injective(y as nat, y2 as nat);
    lemma_concat_cancel_left(
        seq![' '],
        spec_decimal(z as nat) + (seq![' '] + spec_decimal(speed as nat)),
        spec_decimal(z2 as nat) + (seq![' '] + spec_decimal(speed2 as nat)),
    );
    let ua = seq![' '] + spec_decimal(speed as nat);
    let ub = seq![' '] + spec_decimal(speed2 as nat);
    assert(ua[0] == ' ');
    assert(ub[0] == ' ');
    lemma_space_sep_cancel(spec_decimal(z as nat), ua, spec_decimal(z2 as nat), ub);
    lemma_decimal_injective(z as nat, z2 as nat);
    lemma_concat_cancel_left(seq![' '], spec_decimal(speed as nat), spec_decimal(speed2 as nat));
    lemma_decimal_injective(speed as nat, speed2 as nat);
}

/// Encode a command to the exact byte sequence that goes on the wire.
///
/// Encoding is total and pure: it cannot fail, and the result is a function
/// of the command value alone.
pub fn get_tello_command_data(command: &TelloCommand) -> (r: Vec<u8>)
    ensures
        r@ == spec_encoding(*command),
{
    let s = command_text(command);
    s.as_str().as_bytes_vec()
}

} // verus!
