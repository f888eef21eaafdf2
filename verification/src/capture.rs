//! Saving a still frame: where captures go and what a capture is called.
//!
//! The caller resolves the platform's directories, reads the clock and
//! writes the file; this module decides the directories to try, in order,
//! and the file name.

use crate::text::decimal;
use crate::text::padded;
use crate::text::push_decimal;
use crate::text::push_padded;
use vstd::prelude::*;
use vstd::string::StringExecFns;

verus! {

/// A directory, given as a base path and the components beneath it. An empty
/// base stands for the current working directory.
#[derive(Debug, PartialEq, Eq)]
pub struct CaptureDir {
    pub base: String,
    pub parts: Vec<String>,
}

/// Mathematical model of a [`CaptureDir`].
pub struct CaptureDirView {
    pub base: Seq<char>,
    pub parts: Seq<Seq<char>>,
}

impl View for CaptureDir {
    type V = CaptureDirView;

    open spec fn view(&self) -> CaptureDirView {
        CaptureDirView {
            base: self.base@,
            parts: Seq::new(self.parts@.len(), |i: int| self.parts@[i]@),
        }
    }
}

/// The directory that captures go to by preference: the folder `kcam` in the
/// platform's picture directory; without one, in `Pictures` beneath the home
/// directory; without that, in the current working directory.
pub open spec fn preferred_dir(
    picture_dir: Option<Seq<char>>,
    home_dir: Option<Seq<char>>,
) -> CaptureDirView {
    match (picture_dir, home_dir) {
        (Some(pictures), _) => CaptureDirView { base: pictures, parts: seq!["kcam"@] },
        (None, Some(home)) => CaptureDirView { base: home, parts: seq!["Pictures"@, "kcam"@] },
        (None, None) => fallback_dir(),
    }
}

/// The directory that captures go to where the preferred one cannot be
/// written: the folder `kcam` in the current working directory.
pub open spec fn fallback_dir() -> CaptureDirView {
    CaptureDirView { base: Seq::empty(), parts: seq!["kcam"@] }
}

/// The view of an optional string.
pub open spec fn text_of(s: Option<String>) -> Option<Seq<char>> {
    match s {
        Some(s) => Some(s@),
        None => None,
    }
}

fn working_dir() -> (dir: CaptureDir)
    ensures
        dir@ == fallback_dir(),
{
    let mut parts: Vec<String> = Vec::new();
    parts.push("kcam".to_string());
    let dir = CaptureDir { base: String::new(), parts };
    assert(dir@.parts =~= seq!["kcam"@]);
    dir
}

/// The directories to try for a capture, in order: the preferred one, then
/// the fallback.
pub fn capture_dirs(picture_dir: Option<String>, home_dir: Option<String>) -> (dirs: Vec<
    CaptureDir,
>)
    ensures
        dirs@.len() == 2,
        dirs@[0]@ == preferred_dir(text_of(picture_dir), text_of(home_dir)),
        dirs@[1]@ == fallback_dir(),
{
    let preferred = match picture_dir {
        Some(pictures) => {
            let mut parts: Vec<String> = Vec::new();
            parts.push("kcam".to_string());
            let dir = CaptureDir { base: pictures, parts };
            assert(dir@.parts =~= seq!["kcam"@]);
            dir
        },
        None => match home_dir {
            Some(home) => {
                let mut parts: Vec<String> = Vec::new();
                parts.push("Pictures".to_string());
                parts.push("kcam".to_string());
                let dir = CaptureDir { base: home, parts };
                assert(dir@.parts =~= seq!["Pictures"@, "kcam"@]);
                dir
            },
            None => working_dir(),
        },
    };
    let mut dirs: Vec<CaptureDir> = Vec::new();
    dirs.push(preferred);
    dirs.push(working_dir());
    dirs
}

/// What to do next while a capture is being saved.
#[derive(Clone, Copy, Debug, PartialEq, Eq, Structural)]
pub enum CaptureStep {
    /// Write the file in the directory with this index.
    Try(usize),
    /// The file was written in the directory with this index.
    Saved(usize),
    /// No directory could be written.
    Failed,
}

/// The step that follows the attempt `last`, given as the index of the
/// directory tried and whether the write went through; `None` before the
/// first attempt.
pub open spec fn step_after(dirs: nat, last: Option<(usize, bool)>) -> CaptureStep {
    match last {
        None => if dirs > 0 {
            CaptureStep::Try(0)
        } else {
            CaptureStep::Failed
        },
        Some((tried, true)) => CaptureStep::Saved(tried),
        Some((tried, false)) => if tried + 1 < dirs {
            CaptureStep::Try((tried + 1) as usize)
        } else {
            CaptureStep::Failed
        },
    }
}

/// Decides how saving a capture goes on over `dirs` directories: the first
/// write that goes through ends it, a failed write moves on to the next
/// directory, and after the last directory the capture has failed.
pub fn capture_step(dirs: usize, last: Option<(usize, bool)>) -> (step: CaptureStep)
    ensures
        step == step_after(dirs as nat, last),
{
    match last {
        None => {
            if dirs > 0 {
                CaptureStep::Try(0)
            } else {
                CaptureStep::Failed
            }
        },
        Some((tried, ok)) => {
            if ok {
                CaptureStep::Saved(tried)
            } else if tried < dirs && tried + 1 < dirs {
                CaptureStep::Try(tried + 1)
            } else {
                CaptureStep::Failed
            }
        },
    }
}

/// The moment a capture was taken, in local time.
#[derive(Clone, Copy, Debug, PartialEq, Eq, Structural)]
pub struct Stamp {
    pub year: u32,
    pub month: u32,
    pub day: u32,
    pub hour: u32,
    pub minute: u32,
    pub second: u32,
    pub millisecond: u32,
}

impl Stamp {
    /// Every field fits the width of its place in a file name: four digits
    /// for the year, three for the millisecond, two for each of the others.
    /// Every moment of the calendar up to the year 9999 does.
    pub open spec fn fits(self) -> bool {
        &&& self.year <= 9999
        &&& self.month <= 99
        &&& self.day <= 99
        &&& self.hour <= 99
        &&& self.minute <= 99
        &&& self.second <= 99
        &&& self.millisecond <= 999
    }
}

/// The file name of a capture taken at `stamp`: year, month and day joined by
/// hyphens, an underscore, then hour, minute, second and millisecond joined
/// by hyphens, each at its usual width, and the extension `.jpg`.
pub open spec fn stamp_file_name(stamp: Stamp) -> Seq<char> {
    padded(stamp.year as nat, 4) + seq!['-'] + padded(stamp.month as nat, 2) + seq!['-'] + padded(
        stamp.day as nat,
        2,
    ) + seq!['_'] + padded(stamp.hour as nat, 2) + seq!['-'] + padded(stamp.minute as nat, 2)
        + seq!['-'] + padded(stamp.second as nat, 2) + seq!['-'] + padded(
        stamp.millisecond as nat,
        3,
    ) + ".jpg"@
}

/// The file name of the capture with number `n`.
pub open spec fn counter_file_name(n: nat) -> Seq<char> {
    "img_"@ + decimal(n) + ".jpg"@
}

/// Names a capture after the moment it was taken.
pub fn stamp_name(stamp: &Stamp) -> (name: String)
    ensures
        name@ == stamp_file_name(*stamp),
{
    proof {
        reveal_strlit("-");
        reveal_strlit("_");
    }
    let mut name = String::new();
    push_padded(&mut name, stamp.year as u64, 4);
    name.append("-");
    push_padded(&mut name, stamp.month as u64, 2);
    name.append("-");
    push_padded(&mut name, stamp.day as u64, 2);
    name.append("_");
    push_padded(&mut name, stamp.hour as u64, 2);
    name.append("-");
    push_padded(&mut name, stamp.minute as u64, 2);
    name.append("-");
    push_padded(&mut name, stamp.second as u64, 2);
    name.append("-");
    push_padded(&mut name, stamp.millisecond as u64, 3);
    name.append(".jpg");
    assert(name@ =~= stamp_file_name(*stamp));
    name
}

/// Names a capture after its number.
pub fn counter_name(n: u64) -> (name: String)
    ensures
        name@ == counter_file_name(n as nat),
{
    let mut name = "img_".to_string();
    let _ = push_decimal(&mut name, n);
    name.append(".jpg");
    name
}

/// Whether one of `existing` is exactly `name`.
pub open spec fn taken(existing: Seq<String>, name: Seq<char>) -> bool {
    exists|i: int| 0 <= i < existing.len() && existing[i]@ == name
}

/// Whether a directory that holds the files `existing` has one called `name`.
pub fn is_taken(existing: &Vec<String>, name: &String) -> (b: bool)
    ensures
        b == taken(existing@, name@),
{
    let mut i: usize = 0;
    while i < existing.len()
        invariant
            i <= existing@.len(),
            forall|k: int| 0 <= k < i ==> existing@[k]@ != name@,
        decreases existing@.len() - i,
    {
        if existing[i] == *name {
            return true;
        }
        i += 1;
    }
    false
}

/// `n` is the lowest number whose capture name none of `existing` has.
pub open spec fn first_free(existing: Seq<String>, n: nat) -> bool {
    &&& !taken(existing, counter_file_name(n))
    &&& forall|m: nat| m < n ==> taken(existing, #[trigger] counter_file_name(m))
}

/// Names the next capture in a directory that holds the files `existing`:
/// the numbered name with the lowest number that is free. No file in the
/// directory has the name that is returned.
pub fn next_free_name(existing: &Vec<String>) -> (name: String)
    ensures
        !taken(existing@, name@),
        exists|n: nat| first_free(existing@, n) && name@ == counter_file_name(n),
{
    let mut n: usize = 0;
    while n < existing.len()
        invariant
            n <= existing@.len(),
            forall|m: nat| m < n ==> taken(existing@, #[trigger] counter_file_name(m)),
        decreases existing@.len() - n,
    {
        let name = counter_name(n as u64);
        if !is_taken(existing, &name) {
            assert(first_free(existing@, n as nat));
            return name;
        }
        n += 1;
    }
    let name = counter_name(n as u64);
    proof {
        if taken(existing@, counter_file_name(n as nat)) {
            lemma_some_name_free(existing@);
        }
        assert(first_free(existing@, n as nat));
    }
    name
}

/// Names a capture taken at `stamp` for a directory that holds the files
/// `existing`: after the moment it was taken, or, where a file of that name
/// is there already, after the lowest free number. No file in the directory
/// has the name that is returned, so saving under it overwrites nothing.
pub fn capture_name(stamp: &Stamp, existing: &Vec<String>) -> (name: String)
    ensures
        !taken(existing@, name@),
        !taken(existing@, stamp_file_name(*stamp)) ==> name@ == stamp_file_name(*stamp),
        taken(existing@, stamp_file_name(*stamp)) ==> exists|n: nat|
            first_free(existing@, n) && name@ == counter_file_name(n),
{
    let name = stamp_name(stamp);
    if is_taken(existing, &name) {
        next_free_name(existing)
    } else {
        name
    }
}

/// Captures with different numbers have different names.
pub proof fn lemma_counter_names_differ(a: nat, b: nat)
    requires
        counter_file_name(a) == counter_file_name(b),
    ensures
        a == b,
{
    reveal_strlit("img_");
    reveal_strlit(".jpg");
    let na = counter_file_name(a);
    let nb = counter_file_name(b);
    assert(na.len() == 8 + decimal(a).len());
    assert(nb.len() == 8 + decimal(b).len());
    assert(decimal(a) =~= na.subrange(4, na.len() - 4));
    assert(decimal(b) =~= nb.subrange(4, nb.len() - 4));
    crate::text::lemma_decimal_injective(a, b);
}

/// A directory cannot hold every one of the numbered names up to the number
/// of its files: one of them is free.
pub proof fn lemma_some_name_free(existing: Seq<String>)
    ensures
        exists|n: nat| n <= existing.len() && !taken(existing, #[trigger] counter_file_name(n)),
{
    let count = existing.len() as int;
    if forall|n: nat| n <= count ==> taken(existing, #[trigger] counter_file_name(n)) {
        let numbers = vstd::set_lib::set_int_range(0, count + 1);
        let places = vstd::set_lib::set_int_range(0, count);
        let place = |n: int|
            choose|i: int| 0 <= i < existing.len() && existing[i]@ == counter_file_name(n as nat);
        vstd::set_lib::lemma_int_range(0, count + 1);
        vstd::set_lib::lemma_int_range(0, count);
        assert forall|n: int| numbers.contains(n) implies 0 <= #[trigger] place(n) < count
            && existing[place(n)]@ == counter_file_name(n as nat) by {
            assert(taken(existing, counter_file_name(n as nat)));
        }
        assert(vstd::relations::injective_on(place, numbers)) by {
            assert forall|a: int, b: int|
                numbers.contains(a) && numbers.contains(b) && #[trigger] place(a)
                    == #[trigger] place(b) implies a == b by {
                lemma_counter_names_differ(a as nat, b as nat);
            }
        }
        let reached = numbers.map(place);
        vstd::set_lib::lemma_map_size(numbers, reached, place);
        assert(reached.subset_of(places)) by {
            assert forall|i: int| reached.contains(i) implies places.contains(i) by {
                let n = choose|n: int| numbers.contains(n) && place(n) == i;
                assert(numbers.contains(n));
            }
        }
        vstd::set_lib::lemma_len_subset(reached, places);
    }
}

/// Captures taken at different moments have different names: a name taken
/// from the clock is free as long as no other capture fell into the same
/// millisecond.
pub proof fn lemma_stamp_names_differ(a: Stamp, b: Stamp)
    requires
        a.fits(),
        b.fits(),
        stamp_file_name(a) == stamp_file_name(b),
    ensures
        a == b,
{
    lemma_stamp_fields(a);
    lemma_stamp_fields(b);
    crate::text::lemma_number_of_padded(a.year as nat, 4);
    crate::text::lemma_number_of_padded(b.year as nat, 4);
    crate::text::lemma_number_of_padded(a.month as nat, 2);
    crate::text::lemma_number_of_padded(b.month as nat, 2);
    crate::text::lemma_number_of_padded(a.day as nat, 2);
    crate::text::lemma_number_of_padded(b.day as nat, 2);
    crate::text::lemma_number_of_padded(a.hour as nat, 2);
    crate::text::lemma_number_of_padded(b.hour as nat, 2);
    crate::text::lemma_number_of_padded(a.minute as nat, 2);
    crate::text::lemma_number_of_padded(b.minute as nat, 2);
    crate::text::lemma_number_of_padded(a.second as nat, 2);
    crate::text::lemma_number_of_padded(b.second as nat, 2);
    crate::text::lemma_number_of_padded(a.millisecond as nat, 3);
    crate::text::lemma_number_of_padded(b.millisecond as nat, 3);
}

/// Where each field of a stamp stands in its file name.
proof fn lemma_stamp_fields(s: Stamp)
    requires
        s.fits(),
    ensures
        stamp_file_name(s).len() == 27,
        stamp_file_name(s).subrange(0, 4) == padded(s.year as nat, 4),
        stamp_file_name(s).subrange(5, 7) == padded(s.month as nat, 2),
        stamp_file_name(s).subrange(8, 10) == padded(s.day as nat, 2),
        stamp_file_name(s).subrange(11, 13) == padded(s.hour as nat, 2),
        stamp_file_name(s).subrange(14, 16) == padded(s.minute as nat, 2),
        stamp_file_name(s).subrange(17, 19) == padded(s.second as nat, 2),
        stamp_file_name(s).subrange(20, 23) == padded(s.millisecond as nat, 3),
{
    reveal_strlit(".jpg");
    assert(crate::text::ten_to(4) == 10000 && crate::text::ten_to(3) == 1000 && crate::text::ten_to(
        2,
    ) == 100) by {
        reveal_with_fuel(crate::text::ten_to, 5);
    }
    crate::text::lemma_padded_len(s.year as nat, 4);
    crate::text::lemma_padded_len(s.month as nat, 2);
    crate::text::lemma_padded_len(s.day as nat, 2);
    crate::text::lemma_padded_len(s.hour as nat, 2);
    crate::text::lemma_padded_len(s.minute as nat, 2);
    crate::text::lemma_padded_len(s.second as nat, 2);
    crate::text::lemma_padded_len(s.millisecond as nat, 3);
    let name = stamp_file_name(s);
    assert(name.len() == 27);
    assert(name.subrange(0, 4) =~= padded(s.year as nat, 4));
    assert(name.subrange(5, 7) =~= padded(s.month as nat, 2));
    assert(name.subrange(8, 10) =~= padded(s.day as nat, 2));
    assert(name.subrange(11, 13) =~= padded(s.hour as nat, 2));
    assert(name.subrange(14, 16) =~= padded(s.minute as nat, 2));
    assert(name.subrange(17, 19) =~= padded(s.second as nat, 2));
    assert(name.subrange(20, 23) =~= padded(s.millisecond as nat, 3));
}

} // verus!
