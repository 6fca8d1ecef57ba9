use vstd::prelude::*;
use crate::geometry::{vadd, vsub, Vec3};

verus! {

/// Whether a chunk offset lies within the render distances around the camera's chunk.
pub open spec fn in_render_range(o: Vec3, horizontal: int, vertical: int) -> bool {
    &&& -horizontal <= o.x <= horizontal
    &&& -horizontal <= o.y <= horizontal
    &&& -vertical <= o.z <= vertical
}

/// Whether offset `a` is scanned before offset `b`: by `x`, then `y`, then `z`.
pub open spec fn scanned_before(a: Vec3, b: Vec3) -> bool {
    ||| a.x < b.x
    ||| a.x == b.x && a.y < b.y
    ||| a.x == b.x && a.y == b.y && a.z < b.z
}

/// Whether every chunk around `camera` within the render distances can be addressed without
/// overflow.
pub open spec fn chunk_range_fits(camera: Vec3, horizontal: int, vertical: int) -> bool {
    ||| horizontal < 0
    ||| vertical < 0
    ||| {
        &&& i64::MIN <= camera.x - horizontal
        &&& camera.x + horizontal <= i64::MAX
        &&& i64::MIN <= camera.y - horizontal
        &&& camera.y + horizontal <= i64::MAX
        &&& i64::MIN <= camera.z - vertical
        &&& camera.z + vertical <= i64::MAX
    }
}

/// Whether the chunk is among the loaded ones.
pub fn contains_chunk(loaded: &Vec<Vec3>, chunk: Vec3) -> (res: bool)
    ensures
        res == loaded@.contains(chunk),
{
    let mut i: usize = 0;
    while i < loaded.len()
        invariant
            i <= loaded@.len(),
            forall|j: int| 0 <= j < i ==> loaded@[j] != chunk,
        decreases loaded@.len() - i,
    {
        if loaded[i] == chunk {
            return true;
        }
        i = i + 1;
    }
    false
}

/// The next chunk to load around the camera's chunk: scanning the offsets within the render
/// distances by `x`, then `y`, then `z`, the first chunk that is not loaded yet; `None` when all
/// of them are loaded.
pub fn next_chunk(camera: Vec3, loaded: &Vec<Vec3>, horizontal: i64, vertical: i64) -> (res: Option<Vec3>)
    requires
        chunk_range_fits(camera, horizontal as int, vertical as int),
    ensures
        match res {
            Some(chunk) => {
                &&& in_render_range(vsub(chunk, camera), horizontal as int, vertical as int)
                &&& vadd(camera, vsub(chunk, camera)) == chunk
                &&& !loaded@.contains(chunk)
                &&& forall|o: Vec3|
                    in_render_range(o, horizontal as int, vertical as int) && scanned_before(
                        o,
                        vsub(chunk, camera),
                    ) ==> #[trigger] loaded@.contains(vadd(camera, o))
            },
            None => forall|o: Vec3|
                in_render_range(o, horizontal as int, vertical as int) ==> #[trigger] loaded@.contains(
                    vadd(camera, o),
                ),
        },
{
    if horizontal < 0 || vertical < 0 {
        return None;
    }
    let mut dx: i64 = -horizontal;
    loop
        invariant_except_break
            0 <= horizontal,
            0 <= vertical,
            chunk_range_fits(camera, horizontal as int, vertical as int),
            -horizontal <= dx <= horizontal,
            forall|o: Vec3|
                in_render_range(o, horizontal as int, vertical as int) && o.x < dx
                    ==> #[trigger] loaded@.contains(vadd(camera, o)),
        ensures
            forall|o: Vec3|
                in_render_range(o, horizontal as int, vertical as int) ==> #[trigger] loaded@.contains(
                    vadd(camera, o),
                ),
        decreases horizontal - dx,
    {
        let mut dy: i64 = -horizontal;
        loop
            invariant_except_break
                0 <= horizontal,
                0 <= vertical,
                chunk_range_fits(camera, horizontal as int, vertical as int),
                -horizontal <= dx <= horizontal,
                -horizontal <= dy <= horizontal,
                forall|o: Vec3|
                    in_render_range(o, horizontal as int, vertical as int) && (o.x < dx || (o.x
                        == dx && o.y < dy)) ==> #[trigger] loaded@.contains(vadd(camera, o)),
            ensures
                forall|o: Vec3|
                    in_render_range(o, horizontal as int, vertical as int) && o.x <= dx
                        ==> #[trigger] loaded@.contains(vadd(camera, o)),
            decreases horizontal - dy,
        {
            let mut dz: i64 = -vertical;
            loop
                invariant_except_break
                    0 <= horizontal,
                    0 <= vertical,
                    chunk_range_fits(camera, horizontal as int, vertical as int),
                    -horizontal <= dx <= horizontal,
                    -horizontal <= dy <= horizontal,
                    -vertical <= dz <= vertical,
                    forall|o: Vec3|
                        in_render_range(o, horizontal as int, vertical as int) && (o.x < dx || (
                        o.x == dx && o.y < dy) || (o.x == dx && o.y == dy && o.z < dz))
                            ==> #[trigger] loaded@.contains(vadd(camera, o)),
                ensures
                    forall|o: Vec3|
                        in_render_range(o, horizontal as int, vertical as int) && (o.x < dx || (
                        o.x == dx && o.y <= dy)) ==> #[trigger] loaded@.contains(vadd(camera, o)),
                decreases vertical - dz,
            {
                let offset = Vec3 { x: dx, y: dy, z: dz };
                let chunk = Vec3 { x: camera.x + dx, y: camera.y + dy, z: camera.z + dz };
                assert(chunk == vadd(camera, offset));
                assert(vsub(chunk, camera) == offset);
                if !contains_chunk(loaded, chunk) {
                    return Some(chunk);
                }
                if dz == vertical {
                    break;
                }
                dz = dz + 1;
            }
            if dy == horizontal {
                break;
            }
            dy = dy + 1;
        }
        if dx == horizontal {
            break;
        }
        dx = dx + 1;
    }
    None
}

} // verus!
