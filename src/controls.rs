use vstd::prelude::*;

verus! {

/// Distance the zoom camera moves per held key per frame, in world units.
pub const PAN_STEP: i64 = 20;

/// Where the recenter key puts the zoom camera.
pub const RECENTER_X: i64 = 13120;
pub const RECENTER_Y: i64 = 2020;
pub const RECENTER_Z: i64 = 100;

/// The keys that steer the zoom camera; every other key is `Other`.
#[derive(Clone, Copy, Debug, PartialEq, Eq, Structural)]
pub enum Key {
    /// Pan up.
    KeyW,
    /// Pan down.
    KeyS,
    /// Pan left.
    KeyA,
    /// Pan right.
    KeyD,
    /// Jump to the recenter point.
    KeyB,
    Other,
}

/// A position in world space.
#[derive(Clone, Copy, Debug, PartialEq, Eq, Structural)]
pub struct Translation {
    pub x: i64,
    pub y: i64,
    pub z: i64,
}

impl View for Translation {
    type V = (int, int, int);

    open spec fn view(&self) -> (int, int, int) {
        (self.x as int, self.y as int, self.z as int)
    }
}

/// Unit direction of a panning key along x and y; zero for the others.
pub open spec fn pan_direction(k: Key) -> (int, int) {
    match k {
        Key::KeyW => (0, 1),
        Key::KeyS => (0, -1),
        Key::KeyA => (-1, 0),
        Key::KeyD => (1, 0),
        _ => (0, 0),
    }
}

/// The key is one of the four panning keys.
pub open spec fn is_pan_key(k: Key) -> bool {
    k is KeyW || k is KeyS || k is KeyA || k is KeyD
}

/// Where one held key moves the camera from `t`.
pub open spec fn key_step(t: (int, int, int), k: Key) -> (int, int, int) {
    match k {
        Key::KeyB => (RECENTER_X as int, RECENTER_Y as int, RECENTER_Z as int),
        _ => (t.0 + PAN_STEP * pan_direction(k).0, t.1 + PAN_STEP * pan_direction(k).1, t.2),
    }
}

/// Where the held keys move the camera from `t` in one frame, taken in order.
pub open spec fn apply_keys(t: (int, int, int), keys: Seq<Key>) -> (int, int, int)
    decreases keys.len(),
{
    if keys.len() == 0 {
        t
    } else {
        key_step(apply_keys(t, keys.drop_last()), keys.last())
    }
}

/// Each coordinate fits an `i64`.
pub open spec fn in_i64(t: (int, int, int)) -> bool {
    &&& i64::MIN <= t.0 <= i64::MAX
    &&& i64::MIN <= t.1 <= i64::MAX
    &&& i64::MIN <= t.2 <= i64::MAX
}

/// Every position passed through while applying `keys` fits an `i64`.
pub open spec fn stays_in_range(t: (int, int, int), keys: Seq<Key>) -> bool
    decreases keys.len(),
{
    if keys.len() == 0 {
        in_i64(t)
    } else {
        stays_in_range(t, keys.drop_last()) && in_i64(apply_keys(t, keys))
    }
}

/// Staying in range over some keys means staying in range over each prefix.
proof fn lemma_stays_in_range_prefix(t: (int, int, int), keys: Seq<Key>, n: int)
    requires
        stays_in_range(t, keys),
        0 <= n <= keys.len(),
    ensures
        stays_in_range(t, keys.take(n)),
    decreases keys.len(),
{
    if n == keys.len() {
        assert(keys.take(n) =~= keys);
    } else {
        assert(keys.drop_last().take(n) =~= keys.take(n));
        lemma_stays_in_range_prefix(t, keys.drop_last(), n);
    }
}

/// Where the camera is after `n` frames with the single key `k` held.
pub open spec fn hold_key(t: (int, int, int), k: Key, n: nat) -> (int, int, int)
    decreases n,
{
    if n == 0 {
        t
    } else {
        apply_keys(hold_key(t, k, (n - 1) as nat), seq![k])
    }
}

/// Moves the camera for one held key; `None` when a coordinate would leave
/// the `i64` range.
pub fn apply_key(t: Translation, k: Key) -> (r: Option<Translation>)
    ensures
        r is Some <==> in_i64(key_step(t@, k)),
        r matches Some(n) ==> n@ == key_step(t@, k),
{
    match k {
        Key::KeyW => match t.y.checked_add(PAN_STEP) {
            Some(y) => Some(Translation { x: t.x, y, z: t.z }),
            None => None,
        },
        Key::KeyS => match t.y.checked_sub(PAN_STEP) {
            Some(y) => Some(Translation { x: t.x, y, z: t.z }),
            None => None,
        },
        Key::KeyA => match t.x.checked_sub(PAN_STEP) {
            Some(x) => Some(Translation { x, y: t.y, z: t.z }),
            None => None,
        },
        Key::KeyD => match t.x.checked_add(PAN_STEP) {
            Some(x) => Some(Translation { x, y: t.y, z: t.z }),
            None => None,
        },
        Key::KeyB => Some(Translation { x: RECENTER_X, y: RECENTER_Y, z: RECENTER_Z }),
        Key::Other => Some(t),
    }
}

/// One frame of camera control: applies every held key in order, each
/// panning key moving the camera by one step and the recenter key putting it
/// at the recenter point. `None` exactly when some position on the way does
/// not fit an `i64`.
pub fn control(t: Translation, pressed: &Vec<Key>) -> (r: Option<Translation>)
    ensures
        r is Some <==> stays_in_range(t@, pressed@),
        r matches Some(n) ==> n@ == apply_keys(t@, pressed@),
{
    let mut cur = t;
    let mut i: usize = 0;
    proof {
        assert(pressed@.take(0) =~= Seq::<Key>::empty());
    }
    while i < pressed.len()
        invariant
            i <= pressed.len(),
            cur@ == apply_keys(t@, pressed@.take(i as int)),
            stays_in_range(t@, pressed@.take(i as int)),
        decreases pressed.len() - i,
    {
        let key = pressed[i];
        proof {
            let next = pressed@.take(i + 1);
            assert(next.drop_last() =~= pressed@.take(i as int));
            assert(next.last() == key);
        }
        match apply_key(cur, key) {
            Some(n) => {
                cur = n;
            },
            None => {
                proof {
                    if stays_in_range(t@, pressed@) {
                        lemma_stays_in_range_prefix(t@, pressed@, i + 1);
                    }
                }
                return None;
            },
        }
        i += 1;
    }
    proof {
        assert(pressed@.take(pressed@.len() as int) =~= pressed@);
    }
    Some(cur)
}

/// Holding one panning key for `n` frames moves the camera by exactly `n`
/// steps along that key's axis and leaves the other coordinates as they were.
pub proof fn lemma_hold_pan_key(t: (int, int, int), k: Key, n: nat)
    requires
        is_pan_key(k),
    ensures
        hold_key(t, k, n) == (
            t.0 + n * PAN_STEP * pan_direction(k).0,
            t.1 + n * PAN_STEP * pan_direction(k).1,
            t.2,
        ),
    decreases n,
{
    if n > 0 {
        let prev = hold_key(t, k, (n - 1) as nat);
        lemma_hold_pan_key(t, k, (n - 1) as nat);
        assert(seq![k].drop_last() =~= Seq::<Key>::empty());
        assert(apply_keys(prev, Seq::<Key>::empty()) == prev);
        assert(seq![k].last() == k);
        assert(apply_keys(prev, seq![k]) == key_step(prev, k));
        let (dx, dy) = pan_direction(k);
        assert((n - 1) * PAN_STEP * dx + PAN_STEP * dx == n * PAN_STEP * dx) by (nonlinear_arith);
        assert((n - 1) * PAN_STEP * dy + PAN_STEP * dy == n * PAN_STEP * dy) by (nonlinear_arith);
        assert(hold_key(t, k, n) == key_step(prev, k));
    } else {
        let (dx, dy) = pan_direction(k);
        assert(n * PAN_STEP * dx == 0 && n * PAN_STEP * dy == 0) by (nonlinear_arith)
            requires n == 0;
    }
}

} // verus!
