use vstd::prelude::*;

verus! {

/// One relative-motion step: a signed pixel delta on each axis.
#[derive(Clone, Copy, PartialEq, Eq, Structural, Debug)]
pub struct MotionVector {
    pub dx: i8,
    pub dy: i8,
}

/// Number of vectors in the motion script.
pub const SCRIPT_LEN: usize = 16;

/// The fixed motion script: sixteen samples around a circle of radius 24,
/// one full revolution, returning to the starting point.
pub open spec fn script_spec() -> Seq<MotionVector> {
    seq![
        MotionVector { dx: 0, dy: -24i8 },
        MotionVector { dx: -9i8, dy: -22i8 },
        MotionVector { dx: -17i8, dy: -17i8 },
        MotionVector { dx: -22i8, dy: -9i8 },
        MotionVector { dx: -24i8, dy: 0 },
        MotionVector { dx: -22i8, dy: 9 },
        MotionVector { dx: -17i8, dy: 17 },
        MotionVector { dx: -9i8, dy: 22 },
        MotionVector { dx: 0, dy: 24 },
        MotionVector { dx: 9, dy: 22 },
        MotionVector { dx: 17, dy: 17 },
        MotionVector { dx: 22, dy: 9 },
        MotionVector { dx: 24, dy: 0 },
        MotionVector { dx: 22, dy: -9i8 },
        MotionVector { dx: 17, dy: -17i8 },
        MotionVector { dx: 9, dy: -22i8 },
    ]
}

/// Sum of the `dx` components of the first `n` vectors of `s`.
pub open spec fn sum_dx_prefix(s: Seq<MotionVector>, n: int) -> int
    decreases n,
{
    if n <= 0 {
        0
    } else {
        sum_dx_prefix(s, n - 1) + s[n - 1].dx
    }
}

/// Sum of the `dy` components of the first `n` vectors of `s`.
pub open spec fn sum_dy_prefix(s: Seq<MotionVector>, n: int) -> int
    decreases n,
{
    if n <= 0 {
        0
    } else {
        sum_dy_prefix(s, n - 1) + s[n - 1].dy
    }
}

/// Total displacement of a motion sequence, per axis.
pub open spec fn sum_dx(s: Seq<MotionVector>) -> int {
    sum_dx_prefix(s, s.len() as int)
}

/// Total displacement of a motion sequence, per axis.
pub open spec fn sum_dy(s: Seq<MotionVector>) -> int {
    sum_dy_prefix(s, s.len() as int)
}

/// Law: the motion script is a closed loop. Its sixteen vectors sum to
/// exactly `(0, 0)`, so each replayed revolution returns the pointer to
/// where it started.
pub proof fn lemma_script_closure()
    ensures
        script_spec().len() == SCRIPT_LEN,
        sum_dx(script_spec()) == 0,
        sum_dy(script_spec()) == 0,
{
    reveal_with_fuel(sum_dx_prefix, 17);
    reveal_with_fuel(sum_dy_prefix, 17);
}

/// Builds the motion script as a vector, in script order.
pub fn motion_script() -> (v: Vec<MotionVector>)
    ensures
        v@ == script_spec(),
{
    let mut v: Vec<MotionVector> = Vec::new();
    v.push(MotionVector { dx: 0, dy: -24 });
    v.push(MotionVector { dx: -9, dy: -22 });
    v.push(MotionVector { dx: -17, dy: -17 });
    v.push(MotionVector { dx: -22, dy: -9 });
    v.push(MotionVector { dx: -24, dy: 0 });
    v.push(MotionVector { dx: -22, dy: 9 });
    v.push(MotionVector { dx: -17, dy: 17 });
    v.push(MotionVector { dx: -9, dy: 22 });
    v.push(MotionVector { dx: 0, dy: 24 });
    v.push(MotionVector { dx: 9, dy: 22 });
    v.push(MotionVector { dx: 17, dy: 17 });
    v.push(MotionVector { dx: 22, dy: 9 });
    v.push(MotionVector { dx: 24, dy: 0 });
    v.push(MotionVector { dx: 22, dy: -9 });
    v.push(MotionVector { dx: 17, dy: -17 });
    v.push(MotionVector { dx: 9, dy: -22 });
    proof {
        assert(v@ =~= script_spec());
    }
    v
}

} // verus!
