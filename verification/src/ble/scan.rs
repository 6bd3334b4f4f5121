//! The devices found by a scan: one record per address, the first report
//! of each address, and no more than 32 records.

use vstd::prelude::*;
use crate::ble::report::{advertised_in, lemma_report_is_well_formed};
use crate::ble::types::{BleAddress, ScanResult, ScanResultView};

verus! {

/// Most devices that one scan keeps.
pub const MAX_SCAN_RESULTS: usize = 32;

/// The records of a list as plain values.
pub open spec fn result_views(results: Seq<ScanResult>) -> Seq<ScanResultView> {
    results.map_values(|result: ScanResult| result@)
}

/// Whether every record of a list is well formed: its name length fits
/// the name buffer, and is 0 where it has no name.
pub open spec fn all_well_formed(results: Seq<ScanResult>) -> bool {
    forall|i: int| 0 <= i < results.len() ==> (#[trigger] results[i]).well_formed()
}

/// Whether every record of a list is well formed.
pub open spec fn records_well_formed(results: Seq<ScanResultView>) -> bool {
    forall|i: int| 0 <= i < results.len() ==> (#[trigger] results[i]).well_formed()
}

/// Whether `results` holds a record for `address`.
pub open spec fn knows(results: Seq<ScanResultView>, address: Seq<u8>) -> bool {
    exists|i: int| 0 <= i < results.len() && (#[trigger] results[i]).address == address
}

/// The records after `found` was reported: `found` is appended unless its
/// address has a record already or 32 records are held.
pub open spec fn noted(results: Seq<ScanResultView>, found: ScanResultView) -> Seq<
    ScanResultView,
> {
    if knows(results, found.address) || results.len() >= MAX_SCAN_RESULTS {
        results
    } else {
        results.push(found)
    }
}

/// The records after `packet` was read: those after its report, where it
/// carries one.
pub open spec fn gathered(results: Seq<ScanResultView>, packet: Seq<u8>) -> Seq<ScanResultView> {
    match advertised_in(packet) {
        Some(found) => noted(results, found),
        None => results,
    }
}

/// Whether `results` holds a record for `address`.
pub fn knows_device(results: &Vec<ScanResult>, address: &BleAddress) -> (known: bool)
    ensures
        known == knows(result_views(results@), address.bytes@),
{
    let mut i: usize = 0;
    while i < results.len()
        invariant
            i <= results@.len(),
            forall|j: int| 0 <= j < i ==> (#[trigger] result_views(results@)[j]).address != address.bytes@,
        decreases results@.len() - i,
    {
        if results[i].address.same_as(address) {
            assert(result_views(results@)[i as int].address == address.bytes@);
            return true;
        }
        i += 1;
    }
    false
}

/// Takes note of a reported device: the first report of an address is
/// kept, later ones are dropped, and so is every report once 32 devices
/// are held.
pub fn note_device(results: &mut Vec<ScanResult>, found: ScanResult)
    ensures
        result_views(final(results)@) == noted(result_views(old(results)@), found@),
        final(results)@ == old(results)@ || final(results)@ == old(results)@.push(found),
        all_well_formed(old(results)@) && found.well_formed() ==> all_well_formed(
            final(results)@,
        ),
{
    if !knows_device(results, &found.address) && results.len() < MAX_SCAN_RESULTS {
        results.push(found);
        assert(result_views(results@) =~= result_views(old(results)@).push(found@));
    }
}

/// The records that a scan holds after `reports` arrived in this order.
pub open spec fn collected(reports: Seq<ScanResultView>) -> Seq<ScanResultView>
    decreases reports.len(),
{
    if reports.len() == 0 {
        Seq::empty()
    } else {
        noted(collected(reports.drop_last()), reports.last())
    }
}

/// The first report of each address in `reports`, in the order of arrival.
pub open spec fn first_seen(reports: Seq<ScanResultView>) -> Seq<ScanResultView>
    decreases reports.len(),
{
    if reports.len() == 0 {
        Seq::empty()
    } else {
        let before = first_seen(reports.drop_last());
        if knows(before, reports.last().address) {
            before
        } else {
            before.push(reports.last())
        }
    }
}

/// Whether the report at `index` is the first from its address.
pub open spec fn first_from_its_address(reports: Seq<ScanResultView>, index: int) -> bool {
    &&& 0 <= index < reports.len()
    &&& forall|j: int| 0 <= j < index ==> (#[trigger] reports[j]).address != reports[index].address
}

/// Whether `record` is the first report that arrived from its address.
pub open spec fn is_first_report(reports: Seq<ScanResultView>, record: ScanResultView) -> bool {
    exists|i: int| first_from_its_address(reports, i) && reports[i] == record
}

/// Whether no two records of `results` share an address.
pub open spec fn one_per_address(results: Seq<ScanResultView>) -> bool {
    forall|i: int, j: int|
        0 <= i < j < results.len() ==> (#[trigger] results[i]).address != (
        #[trigger] results[j]).address
}

/// The addresses that occur in `reports`.
pub open spec fn addresses(reports: Seq<ScanResultView>) -> Set<Seq<u8>> {
    reports.map_values(|report: ScanResultView| report.address).to_set()
}

/// The first reports name exactly the addresses that were reported.
pub proof fn lemma_first_seen_addresses(reports: Seq<ScanResultView>, address: Seq<u8>)
    ensures
        knows(first_seen(reports), address) <==> knows(reports, address),
    decreases reports.len(),
{
    if reports.len() > 0 {
        let front = reports.drop_last();
        let before = first_seen(front);
        lemma_first_seen_addresses(front, address);
        lemma_first_seen_addresses(front, reports.last().address);
        if knows(first_seen(reports), address) {
            let i = choose|i: int|
                0 <= i < first_seen(reports).len() && (#[trigger] first_seen(reports)[i]).address
                    == address;
            if i < before.len() {
                assert(before[i].address == address);
                let k = choose|k: int| 0 <= k < front.len() && (#[trigger] front[k]).address == address;
                assert(reports[k].address == address);
            } else {
                assert(reports[reports.len() - 1].address == address);
            }
        }
        if knows(reports, address) {
            let k = choose|k: int| 0 <= k < reports.len() && (#[trigger] reports[k]).address == address;
            if k < front.len() {
                assert(front[k].address == address);
                let i = choose|i: int| 0 <= i < before.len() && (#[trigger] before[i]).address == address;
                assert(first_seen(reports)[i].address == address);
            } else if knows(before, address) {
                let i = choose|i: int| 0 <= i < before.len() && (#[trigger] before[i]).address == address;
                assert(first_seen(reports)[i].address == address);
            } else {
                assert(first_seen(reports)[before.len() as int].address == address);
            }
        }
    }
}

/// Among the first reports no address occurs twice, and each of them is
/// the first report that arrived from its address.
pub proof fn lemma_first_seen_is_first(reports: Seq<ScanResultView>)
    ensures
        one_per_address(first_seen(reports)),
        forall|k: int|
            0 <= k < first_seen(reports).len() ==> is_first_report(
                reports,
                #[trigger] first_seen(reports)[k],
            ),
    decreases reports.len(),
{
    if reports.len() > 0 {
        let front = reports.drop_last();
        let before = first_seen(front);
        let last = reports.len() - 1;
        lemma_first_seen_is_first(front);
        lemma_first_seen_addresses(front, reports.last().address);
        assert forall|k: int| 0 <= k < first_seen(reports).len() implies is_first_report(
            reports,
            #[trigger] first_seen(reports)[k],
        ) by {
            if k < before.len() {
                assert(is_first_report(front, before[k]));
                let i = choose|i: int| first_from_its_address(front, i) && front[i] == before[k];
                assert forall|j: int| 0 <= j < i implies (#[trigger] reports[j]).address
                    != reports[i].address by {
                    assert(front[j].address != front[i].address);
                }
                assert(first_from_its_address(reports, i) && reports[i] == first_seen(reports)[k]);
            } else {
                assert forall|j: int| 0 <= j < last implies (#[trigger] reports[j]).address
                    != reports[last].address by {
                    if reports[j].address == reports[last].address {
                        assert(front[j].address == reports.last().address);
                        assert(knows(front, reports.last().address));
                    }
                }
                assert(first_from_its_address(reports, last) && reports[last] == first_seen(
                    reports,
                )[k]);
            }
        }
    }
}

/// The first report from each address is among the first reports.
pub proof fn lemma_first_report_is_kept(reports: Seq<ScanResultView>, index: int)
    requires
        first_from_its_address(reports, index),
    ensures
        first_seen(reports).contains(reports[index]),
    decreases reports.len(),
{
    let front = reports.drop_last();
    let before = first_seen(front);
    if index < reports.len() - 1 {
        assert forall|j: int| 0 <= j < index implies (#[trigger] front[j]).address
            != front[index].address by {
            assert(reports[j].address != reports[index].address);
        }
        lemma_first_report_is_kept(front, index);
        let k = choose|k: int| 0 <= k < before.len() && before[k] == front[index];
        assert(first_seen(reports)[k] == reports[index]);
    } else {
        lemma_first_seen_addresses(front, reports.last().address);
        if knows(front, reports.last().address) {
            let j = choose|j: int| 0 <= j < front.len() && (#[trigger] front[j]).address
                == reports.last().address;
            assert(reports[j].address == reports[index].address);
        }
        assert(first_seen(reports)[before.len() as int] == reports[index]);
    }
}

/// A scan holds the first reports, up to the first 32 of them.
pub proof fn lemma_collected_is_first_seen(reports: Seq<ScanResultView>)
    ensures
        collected(reports) == if first_seen(reports).len() <= MAX_SCAN_RESULTS {
            first_seen(reports)
        } else {
            first_seen(reports).take(MAX_SCAN_RESULTS as int)
        },
    decreases reports.len(),
{
    if reports.len() > 0 {
        let front = reports.drop_last();
        let before = first_seen(front);
        let held = collected(front);
        let address = reports.last().address;
        lemma_collected_is_first_seen(front);
        if before.len() <= MAX_SCAN_RESULTS {
            assert(held == before);
            if !knows(before, address) && before.len() == MAX_SCAN_RESULTS {
                assert(before.push(reports.last()).take(MAX_SCAN_RESULTS as int) =~= before);
            }
        } else {
            assert(held == before.take(MAX_SCAN_RESULTS as int));
            if knows(held, address) {
                let i = choose|i: int| 0 <= i < held.len() && (#[trigger] held[i]).address == address;
                assert(before[i].address == address);
            }
            if !knows(before, address) {
                assert(before.push(reports.last()).take(MAX_SCAN_RESULTS as int) =~= before.take(
                    MAX_SCAN_RESULTS as int,
                ));
            }
        }
    }
}

/// There are as many first reports as there are addresses reported.
pub proof fn lemma_first_seen_counts_addresses(reports: Seq<ScanResultView>)
    ensures
        addresses(reports).finite(),
        first_seen(reports).len() == addresses(reports).len(),
    decreases reports.len(),
{
    let address_of = |report: ScanResultView| report.address;
    vstd::seq_lib::seq_to_set_is_finite(reports.map_values(address_of));
    if reports.len() == 0 {
        assert(addresses(reports) =~= Set::empty());
    } else {
        let front = reports.drop_last();
        let address = reports.last().address;
        lemma_first_seen_counts_addresses(front);
        lemma_first_seen_addresses(front, address);
        assert(reports.map_values(address_of) =~= front.map_values(address_of).push(address));
        front.map_values(address_of).lemma_push_to_set_commute(address);
        assert(addresses(reports) == addresses(front).insert(address));
        if knows(front, address) {
            let k = choose|k: int| 0 <= k < front.len() && (#[trigger] front[k]).address == address;
            assert(front.map_values(address_of)[k] == address);
            assert(addresses(front).contains(address));
        } else {
            if addresses(front).contains(address) {
                let k = choose|k: int|
                    0 <= k < front.map_values(address_of).len() && front.map_values(address_of)[k]
                        == address;
                assert(front[k].address == address);
            }
        }
    }
}

/// A scan holds at most one record per address, and each record is the
/// first report that arrived from its address, not a later one.
pub proof fn lemma_scan_keeps_first_report(reports: Seq<ScanResultView>)
    ensures
        one_per_address(collected(reports)),
        forall|k: int|
            0 <= k < collected(reports).len() ==> is_first_report(
                reports,
                #[trigger] collected(reports)[k],
            ),
{
    lemma_collected_is_first_seen(reports);
    lemma_first_seen_is_first(reports);
    assert forall|k: int| 0 <= k < collected(reports).len() implies is_first_report(
        reports,
        #[trigger] collected(reports)[k],
    ) by {
        assert(collected(reports)[k] == first_seen(reports)[k]);
    }
}

/// A scan never holds more than 32 records. Where more than 32 addresses
/// were reported it holds exactly 32: the first reports of the 32
/// addresses that were heard first. Where at most 32 were reported it
/// holds the first report of every one of them.
pub proof fn lemma_scan_keeps_first_32(reports: Seq<ScanResultView>)
    ensures
        collected(reports).len() <= MAX_SCAN_RESULTS,
        addresses(reports).finite(),
        addresses(reports).len() > MAX_SCAN_RESULTS ==> collected(reports).len()
            == MAX_SCAN_RESULTS && collected(reports) == first_seen(reports).take(
            MAX_SCAN_RESULTS as int,
        ),
        addresses(reports).len() <= MAX_SCAN_RESULTS ==> collected(reports) == first_seen(reports),
{
    lemma_collected_is_first_seen(reports);
    lemma_first_seen_counts_addresses(reports);
}


/// The reports that `packets` carry, in the order of arrival.
pub open spec fn reports_in(packets: Seq<Seq<u8>>) -> Seq<ScanResultView>
    decreases packets.len(),
{
    if packets.len() == 0 {
        Seq::empty()
    } else {
        match advertised_in(packets.last()) {
            Some(found) => reports_in(packets.drop_last()).push(found),
            None => reports_in(packets.drop_last()),
        }
    }
}

/// The records that a scan holds after `packets` were read in this order.
pub open spec fn scanned(packets: Seq<Seq<u8>>) -> Seq<ScanResultView>
    decreases packets.len(),
{
    if packets.len() == 0 {
        Seq::empty()
    } else {
        gathered(scanned(packets.drop_last()), packets.last())
    }
}

/// Reading packets one by one holds the records that their reports give.
pub proof fn lemma_scanned_is_collected(packets: Seq<Seq<u8>>)
    ensures
        scanned(packets) == collected(reports_in(packets)),
    decreases packets.len(),
{
    if packets.len() > 0 {
        lemma_scanned_is_collected(packets.drop_last());
        match advertised_in(packets.last()) {
            Some(found) => {
                let before = reports_in(packets.drop_last());
                assert(before.push(found).drop_last() =~= before);
            },
            None => {},
        }
    }
}


/// Every record that a scan holds is well formed.
pub proof fn lemma_scanned_records_are_well_formed(packets: Seq<Seq<u8>>)
    ensures
        records_well_formed(scanned(packets)),
    decreases packets.len(),
{
    if packets.len() > 0 {
        lemma_scanned_records_are_well_formed(packets.drop_last());
        let packet = packets.last();
        if packet.len() >= 4 {
            lemma_report_is_well_formed(packet.skip(4));
        }
    }
}

} // verus!
