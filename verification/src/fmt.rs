//! Exact textual rendering of body state for debug logging.
//!
//! Ids are rendered in decimal; scalar bit patterns are rendered as eight
//! hexadecimal digits, which is lossless — the log line pins the stored
//! state down to the bit.

use vstd::prelude::*;
use vstd::string::StringExecFns;

use crate::body::{RigidBody, RigidBodyType};
use crate::math::{QuatBits, Vec3Bits};

verus! {

/// The decimal digit character for `d`.
pub open spec fn spec_digit(d: nat) -> char {
    if d == 0 {
        '0'
    } else if d == 1 {
        '1'
    } else if d == 2 {
        '2'
    } else if d == 3 {
        '3'
    } else if d == 4 {
        '4'
    } else if d == 5 {
        '5'
    } else if d == 6 {
        '6'
    } else if d == 7 {
        '7'
    } else if d == 8 {
        '8'
    } else if d == 9 {
        '9'
    } else if d == 10 {
        'a'
    } else if d == 11 {
        'b'
    } else if d == 12 {
        'c'
    } else if d == 13 {
        'd'
    } else if d == 14 {
        'e'
    } else {
        'f'
    }
}

/// The decimal rendering of `n`, most significant digit first, without
/// leading zeros (except for `n == 0`, which renders as "0").
pub open spec fn spec_decimal(n: nat) -> Seq<char>
    decreases n,
{
    if n < 10 {
        seq![spec_digit(n)]
    } else {
        spec_decimal(n / 10) + seq![spec_digit(n % 10)]
    }
}

/// The eight-digit hexadecimal rendering of a scalar bit pattern.
pub open spec fn spec_hex32(b: u32) -> Seq<char> {
    seq![
        spec_digit(((b >> 28) & 0xF) as nat),
        spec_digit(((b >> 24) & 0xF) as nat),
        spec_digit(((b >> 20) & 0xF) as nat),
        spec_digit(((b >> 16) & 0xF) as nat),
        spec_digit(((b >> 12) & 0xF) as nat),
        spec_digit(((b >> 8) & 0xF) as nat),
        spec_digit(((b >> 4) & 0xF) as nat),
        spec_digit((b & 0xF) as nat),
    ]
}

/// The literal for one digit character, decimal or hexadecimal.
fn digit_str(d: u64) -> (r: &'static str)
    requires
        d < 16,
    ensures
        r@ =~= seq![spec_digit(d as nat)],
{
    proof {
        reveal_strlit("0");
        reveal_strlit("1");
        reveal_strlit("2");
        reveal_strlit("3");
        reveal_strlit("4");
        reveal_strlit("5");
        reveal_strlit("6");
        reveal_strlit("7");
        reveal_strlit("8");
        reveal_strlit("9");
        reveal_strlit("a");
        reveal_strlit("b");
        reveal_strlit("c");
        reveal_strlit("d");
        reveal_strlit("e");
        reveal_strlit("f");
    }
    if d == 0 {
        "0"
    } else if d == 1 {
        "1"
    } else if d == 2 {
        "2"
    } else if d == 3 {
        "3"
    } else if d == 4 {
        "4"
    } else if d == 5 {
        "5"
    } else if d == 6 {
        "6"
    } else if d == 7 {
        "7"
    } else if d == 8 {
        "8"
    } else if d == 9 {
        "9"
    } else if d == 10 {
        "a"
    } else if d == 11 {
        "b"
    } else if d == 12 {
        "c"
    } else if d == 13 {
        "d"
    } else if d == 14 {
        "e"
    } else {
        "f"
    }
}

/// Renders an id in decimal.
pub fn u64_to_string(n: u64) -> (s: String)
    ensures
        s@ == spec_decimal(n as nat),
    decreases n,
{
    if n < 10 {
        String::from_str(digit_str(n))
    } else {
        proof {
            assert(n / 10 < n) by (nonlinear_arith)
                requires
                    n >= 10,
            ;
        }
        let mut s = u64_to_string(n / 10);
        s.append(digit_str(n % 10));
        s
    }
}

/// Renders a scalar bit pattern as eight hexadecimal digits.
pub fn u32_to_hex(b: u32) -> (s: String)
    ensures
        s@ == spec_hex32(b),
{
    proof {
        assert((b >> 28) & 0xF < 16 && (b >> 24) & 0xF < 16 && (b >> 20) & 0xF < 16 && (b >> 16)
            & 0xF < 16 && (b >> 12) & 0xF < 16 && (b >> 8) & 0xF < 16 && (b >> 4) & 0xF < 16 && b
            & 0xF < 16) by (bit_vector);
    }
    let mut s = String::from_str(digit_str((((b >> 28) & 0xF) as u64)));
    s.append(digit_str((((b >> 24) & 0xF) as u64)));
    s.append(digit_str((((b >> 20) & 0xF) as u64)));
    s.append(digit_str((((b >> 16) & 0xF) as u64)));
    s.append(digit_str((((b >> 12) & 0xF) as u64)));
    s.append(digit_str((((b >> 8) & 0xF) as u64)));
    s.append(digit_str((((b >> 4) & 0xF) as u64)));
    s.append(digit_str(((b & 0xF) as u64)));
    proof {
        assert(s@ =~= spec_hex32(b));
    }
    s
}

/// The rendering of a vector: its three component patterns, space
/// separated.
pub open spec fn spec_vec3_text(v: Vec3Bits) -> Seq<char> {
    spec_hex32(v.x) + seq![' '] + spec_hex32(v.y) + seq![' '] + spec_hex32(v.z)
}

/// The rendering of a quaternion: its four component patterns, space
/// separated.
pub open spec fn spec_quat_text(q: QuatBits) -> Seq<char> {
    spec_hex32(q.x) + seq![' '] + spec_hex32(q.y) + seq![' '] + spec_hex32(q.z) + seq![' ']
        + spec_hex32(q.w)
}

/// The label of a body classification.
pub open spec fn spec_type_label(t: RigidBodyType) -> Seq<char> {
    match t {
        RigidBodyType::Static => seq!['s', 't', 'a', 't', 'i', 'c'],
        RigidBodyType::Dynamic => seq!['d', 'y', 'n', 'a', 'm', 'i', 'c'],
        RigidBodyType::Kinematic => seq!['k', 'i', 'n', 'e', 'm', 'a', 't', 'i', 'c'],
    }
}

/// One debug line: the body's id, classification, pose and velocities,
/// every scalar rendered losslessly.
pub open spec fn spec_body_line(b: RigidBody) -> Seq<char> {
    seq!['b', 'o', 'd', 'y', ' '] + spec_decimal(b.id as nat) + seq![' '] + spec_type_label(
        b.body_type,
    ) + seq![' ', 'p', 'o', 's', ' '] + spec_vec3_text(b.position) + seq![' ', 'r', 'o', 't', ' ']
        + spec_quat_text(b.rotation) + seq![' ', 'v', 'e', 'l', ' '] + spec_vec3_text(
        b.linear_velocity,
    ) + seq![' ', 'a', 'n', 'g', ' '] + spec_vec3_text(b.angular_velocity)
}

/// Appends the rendering of a vector.
fn append_vec3(s: &mut String, v: &Vec3Bits)
    ensures
        final(s)@ == old(s)@ + spec_vec3_text(*v),
{
    let part = u32_to_hex(v.x);
    s.append(part.as_str());
    s.append(" ");
    let part = u32_to_hex(v.y);
    s.append(part.as_str());
    s.append(" ");
    let part = u32_to_hex(v.z);
    s.append(part.as_str());
    proof {
        reveal_strlit(" ");
        assert(s@ =~= old(s)@ + spec_vec3_text(*v));
    }
}

/// Appends the rendering of a quaternion.
fn append_quat(s: &mut String, q: &QuatBits)
    ensures
        final(s)@ == old(s)@ + spec_quat_text(*q),
{
    let part = u32_to_hex(q.x);
    s.append(part.as_str());
    s.append(" ");
    let part = u32_to_hex(q.y);
    s.append(part.as_str());
    s.append(" ");
    let part = u32_to_hex(q.z);
    s.append(part.as_str());
    s.append(" ");
    let part = u32_to_hex(q.w);
    s.append(part.as_str());
    proof {
        reveal_strlit(" ");
        assert(s@ =~= old(s)@ + spec_quat_text(*q));
    }
}

/// Renders one body's debug line.
#[verifier::rlimit(50)]
pub fn body_line(b: &RigidBody) -> (s: String)
    ensures
        s@ == spec_body_line(*b),
{
    let mut line = String::from_str("body ");
    let id_text = u64_to_string(b.id);
    line.append(id_text.as_str());
    line.append(" ");
    match b.body_type {
        RigidBodyType::Static => line.append("static"),
        RigidBodyType::Dynamic => line.append("dynamic"),
        RigidBodyType::Kinematic => line.append("kinematic"),
    }
    line.append(" pos ");
    append_vec3(&mut line, &b.position);
    line.append(" rot ");
    append_quat(&mut line, &b.rotation);
    line.append(" vel ");
    append_vec3(&mut line, &b.linear_velocity);
    line.append(" ang ");
    append_vec3(&mut line, &b.angular_velocity);
    proof {
        reveal_strlit("body ");
        reveal_strlit(" ");
        reveal_strlit("static");
        reveal_strlit("dynamic");
        reveal_strlit("kinematic");
        reveal_strlit(" pos ");
        reveal_strlit(" rot ");
        reveal_strlit(" vel ");
        reveal_strlit(" ang ");
        assert(line@ =~= spec_body_line(*b));
    }
    line
}

/// Renders one line per body, in array order: id, classification, pose
/// and velocities, bit-exact.
pub fn debug_bodies(bodies: &Vec<RigidBody>) -> (r: Vec<String>)
    ensures
        r@.len() == bodies@.len(),
        forall|i: int| 0 <= i < r@.len() ==> (#[trigger] r@[i])@ == spec_body_line(bodies@[i]),
{
    let n = bodies.len();
    let mut out: Vec<String> = Vec::new();
    for i in 0..n
        invariant
            n == bodies@.len(),
            out@.len() == i,
            forall|k: int| 0 <= k < i ==> (#[trigger] out@[k])@ == spec_body_line(bodies@[k]),
    {
        let line = body_line(&bodies[i]);
        out.push(line);
    }
    out
}

} // verus!
