//! Analyzes an image produced by an AI depth-detection model and derives a
//! navigation instruction from it.
//!
//! The image is split into three vertical sectors (left, center, right). Each
//! sector tallies how many of its pixels are of the proximity color against
//! its total pixel count, and the three danger ratios are reduced to one
//! instruction under a fixed precedence rule.

use vstd::prelude::*;

pub mod config;

use crate::config::{ImageConfig, ModelProximityColor, Pixel, PixelGrid, pixel_near};
use vstd::string::StrSliceExecFns;

verus! {

/// The navigation instruction derived from an image.
#[derive(Clone, Copy, PartialEq, Eq, Structural, Debug)]
pub enum Instruction {
    Left,
    Forward,
    Right,
    Stop,
}

/// The word a classification emits for this instruction.
pub open spec fn instruction_text(i: Instruction) -> Seq<char> {
    match i {
        Instruction::Right => "RIGHT"@,
        Instruction::Left => "LEFT"@,
        Instruction::Forward => "FORWARD"@,
        Instruction::Stop => "STOP"@,
    }
}

impl Instruction {
    /// The output word for this instruction, exactly as a classification
    /// prints it.
    pub fn text(&self) -> (r: &'static str)
        ensures
            r@ == instruction_text(*self),
    {
        match self {
            Instruction::Right => "RIGHT",
            Instruction::Left => "LEFT",
            Instruction::Forward => "FORWARD",
            Instruction::Stop => "STOP",
        }
    }
}

/// The numerator of a sector's danger ratio `near / total`. A sector with no
/// pixels gets the ratio 0, so its numerator is 0.
pub open spec fn ratio_num(near: nat, total: nat) -> nat {
    if total == 0 {
        0
    } else {
        near
    }
}

/// The denominator of a sector's danger ratio; 1 for a sector with no
/// pixels, so that the ratio is an ordinary fraction in every case.
pub open spec fn ratio_den(total: nat) -> nat {
    if total == 0 {
        1
    } else {
        total
    }
}

/// Whether the ratio `n1 / t1` is at most `n2 / t2`, compared exactly by
/// cross multiplication.
pub open spec fn ratio_le(n1: nat, t1: nat, n2: nat, t2: nat) -> bool {
    ratio_num(n1, t1) * ratio_den(t2) <= ratio_num(n2, t2) * ratio_den(t1)
}

/// Whether the ratio `n1 / t1` is strictly below `n2 / t2`.
pub open spec fn ratio_lt(n1: nat, t1: nat, n2: nat, t2: nat) -> bool {
    ratio_num(n1, t1) * ratio_den(t2) < ratio_num(n2, t2) * ratio_den(t1)
}

/// Whether the ratio `near / total` reaches one half.
pub open spec fn ratio_ge_half(near: nat, total: nat) -> bool {
    2 * ratio_num(near, total) >= ratio_den(total)
}

/// The decision rule, a total function from the three sector tallies to one
/// instruction, evaluated in this exact precedence order:
/// 1. every sector's ratio reaches one half: `Stop`;
/// 2. the center ratio is at most the right and the left ratio: `Forward`;
/// 3. the right ratio is strictly below the center and at most the left
///    ratio: `Right`;
/// 4. otherwise: `Left`.
pub open spec fn decide(ln: nat, lt: nat, cn: nat, ct: nat, rn: nat, rt: nat) -> Instruction {
    if ratio_ge_half(ln, lt) && ratio_ge_half(cn, ct) && ratio_ge_half(rn, rt) {
        Instruction::Stop
    } else if ratio_le(cn, ct, rn, rt) && ratio_le(cn, ct, ln, lt) {
        Instruction::Forward
    } else if ratio_lt(rn, rt, cn, ct) && ratio_le(rn, rt, ln, lt) {
        Instruction::Right
    } else {
        Instruction::Left
    }
}

/// Compares two sector ratios exactly: whether `n1 / t1 <= n2 / t2`.
fn ratio_le_exec(n1: u32, t1: u32, n2: u32, t2: u32) -> (r: bool)
    ensures
        r == ratio_le(n1 as nat, t1 as nat, n2 as nat, t2 as nat),
{
    let num1: u64 = if t1 == 0 {
        0
    } else {
        n1 as u64
    };
    let den1: u64 = if t1 == 0 {
        1
    } else {
        t1 as u64
    };
    let num2: u64 = if t2 == 0 {
        0
    } else {
        n2 as u64
    };
    let den2: u64 = if t2 == 0 {
        1
    } else {
        t2 as u64
    };
    proof {
        assert(num1 * den2 <= u64::MAX && num2 * den1 <= u64::MAX) by (nonlinear_arith)
            requires
                num1 < 0x1_0000_0000u64,
                den1 <= 0x1_0000_0000u64,
                num2 < 0x1_0000_0000u64,
                den2 <= 0x1_0000_0000u64,
        ;
    }
    num1 * den2 <= num2 * den1
}

/// Compares two sector ratios exactly: whether `n1 / t1 < n2 / t2`.
fn ratio_lt_exec(n1: u32, t1: u32, n2: u32, t2: u32) -> (r: bool)
    ensures
        r == ratio_lt(n1 as nat, t1 as nat, n2 as nat, t2 as nat),
{
    !ratio_le_exec(n2, t2, n1, t1)
}

/// Whether a sector's danger ratio `near / total` reaches one half.
fn ratio_ge_half_exec(near: u32, total: u32) -> (r: bool)
    ensures
        r == ratio_ge_half(near as nat, total as nat),
{
    if total == 0 {
        false
    } else {
        2 * (near as u64) >= (total as u64)
    }
}

/// One of the three vertical thirds of the image.
#[derive(Clone, Copy, PartialEq, Eq, Structural, Debug)]
pub enum Sector {
    Left,
    Center,
    Right,
}

/// The sector that holds a pixel whose column is `x`: columns below
/// `width / 3` belong to the left sector, columns below `2 * width / 3` to
/// the center, the rest to the right (integer division, so for very narrow
/// images the left and center sectors may be empty).
pub open spec fn sector_of(width: nat, x: nat) -> Sector {
    if x < width / 3 {
        Sector::Left
    } else if x < 2 * width / 3 {
        Sector::Center
    } else {
        Sector::Right
    }
}

/// How many of the first `n` pixels of a row-major grid of the given width
/// fall in sector `s`.
pub open spec fn total_in(width: nat, n: nat, s: Sector) -> nat
    decreases n,
{
    if n == 0 {
        0
    } else {
        total_in(width, (n - 1) as nat, s) + if sector_of(width, ((n - 1) as nat) % width) == s {
            1nat
        } else {
            0nat
        }
    }
}

/// How many of the first `n` pixels fall in sector `s` and count as near
/// under the given color mode and threshold.
pub open spec fn near_in(
    pixels: Seq<Pixel>,
    width: nat,
    color: ModelProximityColor,
    threshold: u8,
    n: nat,
    s: Sector,
) -> nat
    decreases n,
{
    if n == 0 {
        0
    } else {
        near_in(pixels, width, color, threshold, (n - 1) as nat, s) + if sector_of(
            width,
            ((n - 1) as nat) % width,
        ) == s && pixel_near(pixels[n - 1], color, threshold) {
            1nat
        } else {
            0nat
        }
    }
}

/// The total pixel count of sector `s` over a whole grid.
pub open spec fn grid_total(g: PixelGrid, s: Sector) -> nat {
    total_in(g.width as nat, g.pixels@.len(), s)
}

/// The near pixel count of sector `s` over a whole grid.
pub open spec fn grid_near(
    g: PixelGrid,
    color: ModelProximityColor,
    threshold: u8,
    s: Sector,
) -> nat {
    near_in(g.pixels@, g.width as nat, color, threshold, g.pixels@.len(), s)
}

/// Each sector of the image has a count of near pixels and a count of all
/// its pixels: `(near, total)` for left, center and right.
#[derive(PartialEq, Debug)]
pub struct DangerSectors {
    pub left: (u32, u32),
    pub center: (u32, u32),
    pub right: (u32, u32),
}

impl DangerSectors {
    /// The tallies are consistent: no sector counts more near pixels than
    /// pixels.
    pub open spec fn wf(self) -> bool {
        &&& self.left.0 <= self.left.1
        &&& self.center.0 <= self.center.1
        &&& self.right.0 <= self.right.1
    }

    /// How many pixels the three sectors have tallied together.
    pub open spec fn total_pixels(self) -> int {
        self.left.1 + self.center.1 + self.right.1
    }

    pub fn new() -> (r: DangerSectors)
        ensures
            r.left.0 == 0 && r.left.1 == 0,
            r.center.0 == 0 && r.center.1 == 0,
            r.right.0 == 0 && r.right.1 == 0,
            r.wf(),
    {
        DangerSectors { left: (0, 0), center: (0, 0), right: (0, 0) }
    }

    /// Updates sectors by analyzing the image held by the configuration.
    pub fn analyze(&mut self, img_config: &mut ImageConfig)
        requires
            old(self).wf(),
            old(img_config).img is Some,
            old(img_config).img->Some_0.wf(),
            old(self).total_pixels() + old(img_config).img->Some_0.pixels@.len() <= u32::MAX,
        ensures
            final(self).wf(),
            final(img_config).img is None,
            final(img_config).proximity_color == old(img_config).proximity_color,
            final(img_config).threshold == old(img_config).threshold,
            final(self).left.0 == old(self).left.0 + grid_near(
                old(img_config).img->Some_0,
                old(img_config).proximity_color,
                old(img_config).threshold,
                Sector::Left,
            ),
            final(self).left.1 == old(self).left.1 + grid_total(
                old(img_config).img->Some_0,
                Sector::Left,
            ),
            final(self).center.0 == old(self).center.0 + grid_near(
                old(img_config).img->Some_0,
                old(img_config).proximity_color,
                old(img_config).threshold,
                Sector::Center,
            ),
            final(self).center.1 == old(self).center.1 + grid_total(
                old(img_config).img->Some_0,
                Sector::Center,
            ),
            final(self).right.0 == old(self).right.0 + grid_near(
                old(img_config).img->Some_0,
                old(img_config).proximity_color,
                old(img_config).threshold,
                Sector::Right,
            ),
            final(self).right.1 == old(self).right.1 + grid_total(
                old(img_config).img->Some_0,
                Sector::Right,
            ),
    {
        self.count_pixels(img_config);
    }

    /// Counts the pixels that meet the threshold in each sector, adding them
    /// to the tallies already held, and takes the image out of the
    /// configuration.
    #[verifier::loop_isolation(false)]
    fn count_pixels(&mut self, img_config: &mut ImageConfig)
        requires
            old(self).wf(),
            old(img_config).img is Some,
            old(img_config).img->Some_0.wf(),
            old(self).total_pixels() + old(img_config).img->Some_0.pixels@.len() <= u32::MAX,
        ensures
            final(self).wf(),
            final(img_config).img is None,
            final(img_config).proximity_color == old(img_config).proximity_color,
            final(img_config).threshold == old(img_config).threshold,
            final(self).left.0 == old(self).left.0 + grid_near(
                old(img_config).img->Some_0,
                old(img_config).proximity_color,
                old(img_config).threshold,
                Sector::Left,
            ),
            final(self).left.1 == old(self).left.1 + grid_total(
                old(img_config).img->Some_0,
                Sector::Left,
            ),
            final(self).center.0 == old(self).center.0 + grid_near(
                old(img_config).img->Some_0,
                old(img_config).proximity_color,
                old(img_config).threshold,
                Sector::Center,
            ),
            final(self).center.1 == old(self).center.1 + grid_total(
                old(img_config).img->Some_0,
                Sector::Center,
            ),
            final(self).right.0 == old(self).right.0 + grid_near(
                old(img_config).img->Some_0,
                old(img_config).proximity_color,
                old(img_config).threshold,
                Sector::Right,
            ),
            final(self).right.1 == old(self).right.1 + grid_total(
                old(img_config).img->Some_0,
                Sector::Right,
            ),
    {
        match img_config.img.take() {
            Some(img) => {
                let image_width = img.width;
                let n = img.pixels.len();
                proof {
                    if image_width == 0 {
                        assert(img.pixels@.len() == 0);
                    }
                }
                let mut ln: u32 = 0;
                let mut lt: u32 = 0;
                let mut cn: u32 = 0;
                let mut ct: u32 = 0;
                let mut rn: u32 = 0;
                let mut rt: u32 = 0;
                let mut i: usize = 0;
                while i < n
                    invariant
                        i <= n,
                        lt + ct + rt == i,
                        ln <= lt,
                        cn <= ct,
                        rn <= rt,
                        ln == near_in(
                            img.pixels@,
                            image_width as nat,
                            img_config.proximity_color,
                            img_config.threshold,
                            i as nat,
                            Sector::Left,
                        ),
                        cn == near_in(
                            img.pixels@,
                            image_width as nat,
                            img_config.proximity_color,
                            img_config.threshold,
                            i as nat,
                            Sector::Center,
                        ),
                        rn == near_in(
                            img.pixels@,
                            image_width as nat,
                            img_config.proximity_color,
                            img_config.threshold,
                            i as nat,
                            Sector::Right,
                        ),
                        lt == total_in(image_width as nat, i as nat, Sector::Left),
                        ct == total_in(image_width as nat, i as nat, Sector::Center),
                        rt == total_in(image_width as nat, i as nat, Sector::Right),
                    decreases n - i,
                {
                    let p = img.pixels[i];
                    let near = crate::config::check_threshold(
                        &img_config.proximity_color,
                        img_config.threshold,
                        &p,
                    );
                    let x = (i as u64) % (image_width as u64);
                    if x < (image_width as u64) / 3 {
                        proof {
                            assert(sector_of(image_width as nat, (i as nat) % (image_width as nat))
                                == Sector::Left);
                        }
                        if near {
                            ln = ln + 1;
                        }
                        lt = lt + 1;
                    } else if x < 2 * (image_width as u64) / 3 {
                        proof {
                            assert(sector_of(image_width as nat, (i as nat) % (image_width as nat))
                                == Sector::Center);
                        }
                        if near {
                            cn = cn + 1;
                        }
                        ct = ct + 1;
                    } else {
                        proof {
                            assert(sector_of(image_width as nat, (i as nat) % (image_width as nat))
                                == Sector::Right);
                        }
                        if near {
                            rn = rn + 1;
                        }
                        rt = rt + 1;
                    }
                    i = i + 1;
                }
                self.left.0 = self.left.0 + ln;
                self.left.1 = self.left.1 + lt;
                self.center.0 = self.center.0 + cn;
                self.center.1 = self.center.1 + ct;
                self.right.0 = self.right.0 + rn;
                self.right.1 = self.right.1 + rt;
            },
            None => {},
        }
    }

    /// Based on the dangers in each sector, determines the outcome for the
    /// user: the result is exactly what the `decide` rule says of the three
    /// tallies.
    ///
    /// The precedence is **Forward**, **Right**, **Left**; if the ratio of
    /// near pixels in every sector is at least one half, **Stop**. A sector
    /// with no pixels counts as having ratio 0.
    pub fn get_instruction(&self) -> (r: Instruction)
        ensures
            r == decide(
                self.left.0 as nat,
                self.left.1 as nat,
                self.center.0 as nat,
                self.center.1 as nat,
                self.right.0 as nat,
                self.right.1 as nat,
            ),
    {
        if ratio_ge_half_exec(self.left.0, self.left.1) && ratio_ge_half_exec(
            self.center.0,
            self.center.1,
        ) && ratio_ge_half_exec(self.right.0, self.right.1) {
            Instruction::Stop
        } else if ratio_le_exec(self.center.0, self.center.1, self.right.0, self.right.1)
            && ratio_le_exec(self.center.0, self.center.1, self.left.0, self.left.1) {
            Instruction::Forward
        } else if ratio_lt_exec(self.right.0, self.right.1, self.center.0, self.center.1)
            && ratio_le_exec(self.right.0, self.right.1, self.left.0, self.left.1) {
            Instruction::Right
        } else {
            Instruction::Left
        }
    }
}

/// Whether a file-name extension names one of the image formats a watching
/// driver accepts.
pub open spec fn supported_extension(s: Seq<char>) -> bool {
    ||| s == "png"@
    ||| s == "jpg"@
    ||| s == "jpeg"@
    ||| s == "webp"@
}

/// Compares two strings character by character.
fn str_eq(a: &str, b: &str) -> (r: bool)
    ensures
        r == (a@ == b@),
{
    let a_len = a.unicode_len();
    let b_len = b.unicode_len();
    if a_len != b_len {
        return false;
    }
    let mut i: usize = 0;
    while i < a_len
        invariant
            i <= a_len,
            a_len == a@.len(),
            a_len == b@.len(),
            forall|j: int| 0 <= j < i ==> a@[j] == b@[j],
        decreases a_len - i,
    {
        if a.get_char(i) != b.get_char(i) {
            return false;
        }
        i = i + 1;
    }
    proof {
        assert(a@ =~= b@);
    }
    true
}

/// Decides, for the watching driver, whether a directory entry's extension
/// names a supported image format: png, jpg, jpeg or webp.
pub fn is_supported_extension(ext: &str) -> (r: bool)
    ensures
        r == supported_extension(ext@),
{
    str_eq(ext, "png") || str_eq(ext, "jpg") || str_eq(ext, "jpeg") || str_eq(ext, "webp")
}

/// Law: the three sectors partition the image — over the first `n` pixels of
/// a grid of the given width, the left, center and right totals always sum
/// to `n`.
pub proof fn lemma_sector_totals_partition(width: nat, n: nat)
    ensures
        total_in(width, n, Sector::Left) + total_in(width, n, Sector::Center) + total_in(
            width,
            n,
            Sector::Right,
        ) == n,
    decreases n,
{
    if n > 0 {
        lemma_sector_totals_partition(width, (n - 1) as nat);
    }
}

/// Law: a full accumulation covers the image exactly — the sector totals of
/// a well-formed grid sum to `width * height`.
pub proof fn lemma_grid_totals_cover_image(g: PixelGrid)
    requires
        g.wf(),
    ensures
        grid_total(g, Sector::Left) + grid_total(g, Sector::Center) + grid_total(g, Sector::Right)
            == g.width * g.height,
{
    lemma_sector_totals_partition(g.width as nat, g.pixels@.len());
}

/// Law: in every sector the near count never exceeds the total count.
pub proof fn lemma_near_within_total(
    pixels: Seq<Pixel>,
    width: nat,
    color: ModelProximityColor,
    threshold: u8,
    n: nat,
    s: Sector,
)
    ensures
        near_in(pixels, width, color, threshold, n, s) <= total_in(width, n, s),
    decreases n,
{
    if n > 0 {
        lemma_near_within_total(pixels, width, color, threshold, (n - 1) as nat, s);
    }
}

/// Law: raising the threshold cannot raise any sector's near count — for a
/// fixed image, width and color mode, the near count at a higher threshold
/// is at most the near count at a lower one.
pub proof fn lemma_threshold_monotone(
    pixels: Seq<Pixel>,
    width: nat,
    color: ModelProximityColor,
    t1: u8,
    t2: u8,
    n: nat,
    s: Sector,
)
    requires
        t1 <= t2,
    ensures
        near_in(pixels, width, color, t2, n, s) <= near_in(pixels, width, color, t1, n, s),
    decreases n,
{
    if n > 0 {
        lemma_threshold_monotone(pixels, width, color, t1, t2, (n - 1) as nat, s);
    }
}

/// Law: precedence of Stop — when every sector's ratio reaches one half, the
/// decision is Stop, whichever sector's ratio is largest.
pub proof fn lemma_all_near_stop(ln: nat, lt: nat, cn: nat, ct: nat, rn: nat, rt: nat)
    requires
        ratio_ge_half(ln, lt),
        ratio_ge_half(cn, ct),
        ratio_ge_half(rn, rt),
    ensures
        decide(ln, lt, cn, ct, rn, rt) == Instruction::Stop,
{
}

/// Law: ties break toward Forward — when the center ratio equals both the
/// right and the left ratio (equality stated as `<=` both ways) and the tie
/// sits below one half, the decision is Forward: the center counts as
/// minimal under `<=`. (A three-way tie at or above one half falls to the
/// Stop rule instead: with every ratio at one half the decision is Stop,
/// not Forward.)
pub proof fn lemma_tie_breaks_forward(ln: nat, lt: nat, cn: nat, ct: nat, rn: nat, rt: nat)
    requires
        ratio_le(cn, ct, rn, rt),
        ratio_le(rn, rt, cn, ct),
        ratio_le(cn, ct, ln, lt),
        ratio_le(ln, lt, cn, ct),
        !ratio_ge_half(cn, ct),
    ensures
        decide(ln, lt, cn, ct, rn, rt) == Instruction::Forward,
{
}

} // verus!
