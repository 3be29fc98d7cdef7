//! What a whole search for USB drives comes to.

use vstd::prelude::*;
use crate::bootsect::drive_colon;
use crate::error::BootError;
use crate::text::{not_after, not_after_total, not_after_transitive};
use crate::usb::{
    by_letter, candidate, inserted, scan_found, scan_next, ScanEvent, ScanStep,
    UsbDevice, DRIVE_FIXED, FIRST_LETTER, LAST_LETTER,
};

verus! {

/// Whether drives are in the order of their letters.
pub open spec fn in_letter_order(s: Seq<UsbDevice>) -> bool {
    forall|i: int, j: int|
        0 <= i < j < s.len() ==> not_after((#[trigger] s[i]).letter@, (#[trigger] s[j]).letter@)
}

/// Whether a drive has the letter `letter`.
pub open spec fn of_letter(letter: Seq<char>) -> spec_fn(UsbDevice) -> bool {
    |d: UsbDevice| d.letter@ == letter
}

/// Putting a drive into its place keeps the order, adds just that drive, and puts
/// it behind those of its letter.
proof fn one_put_in(s: Seq<UsbDevice>, d: UsbDevice, letter: Seq<char>)
    requires
        in_letter_order(s),
    ensures
        in_letter_order(inserted(s, d)),
        inserted(s, d).to_multiset() == s.push(d).to_multiset(),
        inserted(s, d).filter(of_letter(letter)) == s.push(d).filter(of_letter(letter)),
    decreases s.len(),
{
    broadcast use vstd::seq_lib::group_to_multiset_ensures;

    if s.len() == 0 {
    } else if not_after(s.last().letter@, d.letter@) {
        assert forall|i: int| 0 <= i < s.len() implies not_after(
            (#[trigger] s[i]).letter@,
            d.letter@,
        ) by {
            if i < s.len() - 1 {
                not_after_transitive(s[i].letter@, s.last().letter@, d.letter@);
            }
        }
    } else {
        let front = s.drop_last();
        let put = inserted(front, d);
        one_put_in(front, d, letter);
        not_after_total(s.last().letter@, d.letter@);
        assert forall|i: int| 0 <= i < put.len() implies not_after(
            (#[trigger] put[i]).letter@,
            s.last().letter@,
        ) by {
            assert(put.contains(put[i]));
            assert(front.push(d).to_multiset().count(put[i]) > 0);
            assert(front.push(d).contains(put[i]));
        }
        assert(s =~= front.push(s.last()));
        assert(put.push(s.last()).to_multiset() =~= s.push(d).to_multiset());
        not_after_total(d.letter@, d.letter@);
        assert(s.last().letter@ != d.letter@);
        assert(put.push(s.last()).drop_last() =~= put);
        assert(front.push(d).drop_last() =~= front);
        assert(s.push(d).drop_last() =~= s);
        reveal_with_fuel(Seq::filter, 3);
    }
}

/// The drives come in the order of their letters.
pub proof fn sorted_by_letter(s: Seq<UsbDevice>)
    ensures
        in_letter_order(by_letter(s)),
    decreases s.len(),
{
    if s.len() > 0 {
        sorted_by_letter(s.drop_last());
        one_put_in(by_letter(s.drop_last()), s.last(), s.last().letter@);
    }
}

/// Ordering the drives neither loses one nor makes one up.
pub proof fn sorting_keeps_the_drives(s: Seq<UsbDevice>)
    ensures
        by_letter(s).to_multiset() == s.to_multiset(),
    decreases s.len(),
{
    broadcast use vstd::seq_lib::group_to_multiset_ensures;

    if s.len() > 0 {
        let front = s.drop_last();
        sorting_keeps_the_drives(front);
        sorted_by_letter(front);
        one_put_in(by_letter(front), s.last(), s.last().letter@);
        assert(s =~= front.push(s.last()));
    }
}

/// Drives of one letter stay in the order in which they were found.
pub proof fn sorting_is_stable(s: Seq<UsbDevice>, letter: Seq<char>)
    ensures
        by_letter(s).filter(of_letter(letter)) == s.filter(of_letter(letter)),
    decreases s.len(),
{
    if s.len() > 0 {
        let front = s.drop_last();
        sorting_is_stable(front, letter);
        sorted_by_letter(front);
        one_put_in(by_letter(front), s.last(), letter);
        assert(by_letter(front).push(s.last()).drop_last() =~= by_letter(front));
        reveal_with_fuel(Seq::filter, 2);
    }
}

/// Drives that are in order stay as they are.
pub proof fn sorted_stay_sorted(s: Seq<UsbDevice>)
    requires
        in_letter_order(s),
    ensures
        by_letter(s) == s,
    decreases s.len(),
{
    if s.len() > 0 {
        sorted_stay_sorted(s.drop_last());
        assert(s =~= s.drop_last().push(s.last()));
    }
}

/// What there is to find on a machine.
pub struct Drives {
    /// Whether there is a volume of this letter.
    pub exists: spec_fn(u8) -> bool,
    /// The type of its drive.
    pub drive_type: spec_fn(u8) -> u32,
    /// What is found out about the drive.
    pub info: spec_fn(u8) -> Result<UsbDevice, BootError>,
}

impl Drives {
    /// What the machine answers.
    pub open spec fn answer(self, step: ScanStep<Seq<char>, Seq<u16>>) -> ScanEvent {
        match step {
            ScanStep::CheckRoot { letter, .. } => ScanEvent::RootChecked {
                letter,
                exists: (self.exists)(letter),
            },
            ScanStep::ReadType { letter, .. } => ScanEvent::TypeRead {
                letter,
                drive_type: (self.drive_type)(letter),
            },
            ScanStep::ReadInfo { letter } => ScanEvent::InfoRead {
                letter,
                info: (self.info)(letter),
            },
            ScanStep::Finished => ScanEvent::Begin,
        }
    }

    /// Whether the volume of this letter is on a drive that can be described and
    /// that may be a USB drive.
    pub open spec fn shows(self, letter: u8) -> bool {
        &&& (self.exists)(letter)
        &&& candidate(letter, (self.drive_type)(letter))
        &&& (self.info)(letter) is Ok
    }

    /// The drives that are shown, from the letter `from` on.
    pub open spec fn shown_from(self, from: u8) -> Seq<UsbDevice>
        decreases LAST_LETTER + 1 - from,
    {
        if from > LAST_LETTER {
            Seq::empty()
        } else {
            let rest = self.shown_from((from + 1) as u8);
            if self.shows(from) {
                seq![(self.info)(from)->Ok_0] + rest
            } else {
                rest
            }
        }
    }

    /// Whether each description has the letter of its drive.
    pub open spec fn well_named(self) -> bool {
        forall|letter: u8| #[trigger]
            (self.info)(letter) matches Ok(device) ==> device.letter@ == drive_colon(letter as char)
    }
}

/// How far a search has come.
pub open spec fn ahead(event: ScanEvent) -> int {
    match event {
        ScanEvent::Begin => 1000,
        ScanEvent::RootChecked { letter, .. } => 3 * (256 - letter) + 2,
        ScanEvent::TypeRead { letter, .. } => 3 * (256 - letter) + 1,
        ScanEvent::InfoRead { letter, .. } => 3 * (256 - letter),
    }
}

/// What is found by a search that goes on with `event`, where `found` were found
/// before.
pub open spec fn scan_from(drives: Drives, found: Seq<UsbDevice>, event: ScanEvent) -> Seq<
    UsbDevice,
>
    decreases ahead(event),
{
    let now = scan_found(found, event);
    if scan_next(event) is Finished {
        by_letter(now)
    } else {
        scan_from(drives, now, drives.answer(scan_next(event)))
    }
}

/// What a whole search finds.
pub open spec fn whole_scan(drives: Drives) -> Seq<UsbDevice> {
    scan_from(drives, Seq::empty(), ScanEvent::Begin)
}

/// What a search finds that has come to the letter `letter`.
proof fn scan_from_letter(drives: Drives, found: Seq<UsbDevice>, letter: u8)
    requires
        letter <= LAST_LETTER,
    ensures
        scan_from(
            drives,
            found,
            ScanEvent::RootChecked { letter, exists: (drives.exists)(letter) },
        ) == by_letter(found + drives.shown_from(letter)),
    decreases LAST_LETTER - letter,
{
    reveal_with_fuel(scan_from, 4);
    reveal_with_fuel(Drives::shown_from, 2);
    let now = if drives.shows(letter) {
        found.push((drives.info)(letter)->Ok_0)
    } else {
        found
    };
    if letter < LAST_LETTER {
        let next = (letter + 1) as u8;
        scan_from_letter(drives, now, next);
        assert(found + drives.shown_from(letter) =~= now + drives.shown_from(next));
    } else {
        assert(found + drives.shown_from(letter) =~= now);
    }
}

/// A search goes through all letters, ends, and finds the drives that are shown, in
/// the order of their letters.
pub proof fn search_finds_what_is_shown(drives: Drives)
    ensures
        whole_scan(drives) == by_letter(drives.shown_from(FIRST_LETTER)),
{
    scan_from_letter(drives, Seq::empty(), FIRST_LETTER);
    assert(Seq::<UsbDevice>::empty() + drives.shown_from(FIRST_LETTER) =~= drives.shown_from(
        FIRST_LETTER,
    ));
}

/// Which drives are shown from a letter on.
proof fn shown_are_shown(drives: Drives, from: u8, device: UsbDevice)
    ensures
        drives.shown_from(from).contains(device) <==> exists|letter: u8|
            from <= letter <= LAST_LETTER && #[trigger] drives.shows(letter)
                && (drives.info)(letter) == Ok::<UsbDevice, BootError>(device),
    decreases LAST_LETTER + 1 - from,
{
    if from <= LAST_LETTER {
        let next = (from + 1) as u8;
        let all = drives.shown_from(from);
        let rest = drives.shown_from(next);
        shown_are_shown(drives, next, device);
        if drives.shows(from) {
            assert(all[0] == (drives.info)(from)->Ok_0);
            assert(all.drop_first() =~= rest);
            if rest.contains(device) {
                let i = choose|i: int| 0 <= i < rest.len() && rest[i] == device;
                assert(all[i + 1] == device);
            }
            if all.contains(device) && all[0] != device {
                let i = choose|i: int| 0 <= i < all.len() && all[i] == device;
                assert(rest[i - 1] == device);
            }
        }
    }
}

/// A drive is found exactly if its volume has a letter from C to Z, it may be a USB
/// drive, and it can be described.
pub proof fn found_exactly_if_shown(drives: Drives, device: UsbDevice)
    ensures
        whole_scan(drives).contains(device) <==> exists|letter: u8|
            FIRST_LETTER <= letter <= LAST_LETTER && #[trigger] drives.shows(letter)
                && (drives.info)(letter) == Ok::<UsbDevice, BootError>(device),
{
    broadcast use vstd::seq_lib::group_to_multiset_ensures;

    let shown = drives.shown_from(FIRST_LETTER);
    search_finds_what_is_shown(drives);
    sorting_keeps_the_drives(shown);
    assert(by_letter(shown).contains(device) <==> by_letter(shown).to_multiset().count(device) > 0);
    assert(shown.contains(device) <==> shown.to_multiset().count(device) > 0);
    shown_are_shown(drives, FIRST_LETTER, device);
}

/// Whether drives have letters from `from` on, each later than the one before.
pub open spec fn letters_rise(s: Seq<UsbDevice>, from: u8) -> bool {
    &&& forall|i: int| #![trigger s[i]] 0 <= i < s.len() ==> s[i].letter@.len() == 2 && from as char
        <= s[i].letter@[0]
    &&& forall|i: int, j: int|
        #![trigger s[i], s[j]]
        0 <= i < j < s.len() ==> s[i].letter@[0] < s[j].letter@[0]
}

/// The drives that are shown have rising letters.
proof fn shown_letters_rise(drives: Drives, from: u8)
    requires
        drives.well_named(),
    ensures
        letters_rise(drives.shown_from(from), from),
    decreases LAST_LETTER + 1 - from,
{
    if from <= LAST_LETTER {
        let next = (from + 1) as u8;
        shown_letters_rise(drives, next);
        reveal_strlit(":");
        if drives.shows(from) {
            let rest = drives.shown_from(next);
            let all = seq![(drives.info)(from)->Ok_0] + rest;
            assert forall|i: int| 0 < i < all.len() implies all[i] == rest[i - 1] by {}
            assert(all[0].letter@[0] == from as char);
        }
    }
}

/// Where each description has the letter of its drive, the drives that are found
/// have rising letters, so that no letter occurs twice, and they come out in the
/// order in which they were found.
pub proof fn found_letters_rise(drives: Drives)
    requires
        drives.well_named(),
    ensures
        letters_rise(whole_scan(drives), FIRST_LETTER),
        whole_scan(drives) == drives.shown_from(FIRST_LETTER),
{
    let shown = drives.shown_from(FIRST_LETTER);
    shown_letters_rise(drives, FIRST_LETTER);
    assert(in_letter_order(shown));
    sorted_stay_sorted(shown);
    search_finds_what_is_shown(drives);
}

/// Where each description has the letter of its drive, a drive with fixed media is
/// never found as C or X, the letters of the system.
pub proof fn system_is_not_found(drives: Drives, letter: u8, device: UsbDevice)
    requires
        drives.well_named(),
        letter as char == 'C' || letter as char == 'X',
        (drives.drive_type)(letter) == DRIVE_FIXED,
        whole_scan(drives).contains(device),
    ensures
        device.letter@ != drive_colon(letter as char),
{
    found_exactly_if_shown(drives, device);
    let l = choose|l: u8|
        FIRST_LETTER <= l <= LAST_LETTER && #[trigger] drives.shows(l) && (drives.info)(l) == Ok::<
            UsbDevice,
            BootError,
        >(device);
    assert(device.letter@ == drive_colon(l as char));
    assert(drive_colon(l as char)[0] == l as char);
    assert(drive_colon(letter as char)[0] == letter as char);
}

} // verus!
