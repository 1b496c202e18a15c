use vstd::prelude::*;

verus! {

/// Workgroup size along y of the `mandelbrot` compute entry point.
pub const MANDELBROT_WORKGROUP_SIZE_Y: u32 = 64;

/// Number of workgroups dispatched along y by the `mandelbrot` compute entry point.
pub const MANDELBROT_DISPATCH_SIZE_Y: u32 = 1024;

/// Number of invocations that one step of the dispatch's x dimension covers:
/// the dispatch's y extent times the workgroup's y extent.
pub open spec fn invocations_per_x_group() -> int {
    MANDELBROT_DISPATCH_SIZE_Y * MANDELBROT_WORKGROUP_SIZE_Y
}

/// The x extent of the dispatch for `total_work` invocations: one more than
/// the number of whole x steps that `total_work` fills.
pub open spec fn dispatch_x(total_work: int) -> int {
    total_work / invocations_per_x_group() + 1
}

/// Dispatch dimensions `(x, y, z)` for `total_work` invocations of the
/// Mandelbrot compute shader.
///
/// The x extent is the least number of x steps whose invocations exceed
/// `total_work`; y is `MANDELBROT_DISPATCH_SIZE_Y` and z is 1.
pub fn mandelbrot_dispatch_size(total_work: usize) -> (dims: (u32, u32, u32))
    requires
        dispatch_x(total_work as int) <= u32::MAX,
    ensures
        dims.0 == dispatch_x(total_work as int),
        dims.1 == MANDELBROT_DISPATCH_SIZE_Y,
        dims.2 == 1,
        dims.0 * invocations_per_x_group() > total_work,
        (dims.0 - 1) * invocations_per_x_group() <= total_work,
{
    let per_group: usize = (MANDELBROT_DISPATCH_SIZE_Y * MANDELBROT_WORKGROUP_SIZE_Y) as usize;
    let x_wide: usize = total_work / per_group + 1;
    let x: u32 = x_wide as u32;
    proof {
        let t = total_work as int;
        let q = t / 65536;
        assert(0 <= t - q * 65536 < 65536) by (nonlinear_arith)
            requires t >= 0, q == t / 65536;
    }
    (x, MANDELBROT_DISPATCH_SIZE_Y, 1)
}

} // verus!
