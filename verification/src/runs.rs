//! What holds of the making of a boot drive from beginning to end.

use vstd::prelude::*;
use crate::bootsect::drive_colon;
use crate::copying::{copy_message, copy_totals_rise_within_bounds};
use crate::progress::WriteProgressView;
use crate::ui::UsbBootStateView;
use crate::usb_writer::{
    after_boot, after_copy, after_format, all_done, gone_wrong, iso_efi_dir, target_letter,
    write_next, PartitionScheme, UsbWriteConfig, WriteAction, WriteEvent, COPY_END, COPY_START,
};

verus! {

/// What a writer asks for.
pub type Ask = WriteAction<Seq<char>, Seq<char>>;

/// Whether `event` is an answer to `ask`.
pub open spec fn answers(ask: Ask, event: WriteEvent) -> bool {
    match ask {
        WriteAction::LockVolume { .. } => event is VolumeLocked,
        WriteAction::CleanDisk { .. } => event is DiskCleaned,
        WriteAction::CreateMbrPartition { .. } => event is Partitioned,
        WriteAction::CreateGptPartitions { .. } => event is Partitioned,
        WriteAction::LoadFormatter => event is FormatterLoaded,
        WriteAction::Format { .. } => event is Formatted,
        WriteAction::FormatByCommand { .. } => event is FormattedByCommand,
        WriteAction::MountIso { .. } => event is IsoMounted,
        WriteAction::CopyFiles { .. } => event is FilesCopied,
        WriteAction::CopyFilesSingly { .. } => event is FilesCopiedSingly,
        WriteAction::WriteMbr { .. } => event is MbrWritten,
        WriteAction::WritePbr { .. } => event is PbrWritten,
        WriteAction::CheckSystemEfi { .. } => event is SystemEfiChecked,
        WriteAction::CheckVolumeEfi { .. } => event is VolumeEfiChecked,
        WriteAction::CheckIsoEfi { .. } => event is IsoEfiChecked,
        WriteAction::CopyEfi { .. } => event is EfiCopied,
        WriteAction::UnmountIso => event is IsoUnmounted,
        WriteAction::UnlockVolume { .. } => event is VolumeUnlocked,
        WriteAction::Finished(_) => false,
    }
}

/// A machine.
pub struct Host {
    /// How it answers what it is asked.
    pub reply: spec_fn(Ask) -> WriteEvent,
    /// How many files the copying tool has copied each time that it reports, in order.
    pub reports: Seq<u64>,
    /// How many files there are to copy.
    pub files: u64,
}

/// Whether a machine answers every question, and to the point, and its copying tool never
/// reports fewer files than before.
pub open spec fn to_the_point(host: Host) -> bool {
    &&& forall|ask: Ask| !(ask is Finished) ==> answers(ask, #[trigger] (host.reply)(ask))
    &&& forall|i: int, j: int|
        0 <= i <= j < host.reports.len() ==> #[trigger] host.reports[i]
            <= #[trigger] host.reports[j]
}

/// What is sent while the machine does what it is asked: a message for each report of the
/// copying tool.
pub open spec fn sent_meanwhile(host: Host, ask: Ask) -> Seq<WriteProgressView> {
    match ask {
        WriteAction::CopyFiles { progress_start, progress_end, .. } => Seq::new(
            host.reports.len(),
            |i: int| copy_message(progress_start, progress_end, host.reports[i], host.files),
        ),
        _ => Seq::empty(),
    }
}

/// All that a writer asks for and sends.
pub struct Run {
    /// What it asked for, in order.
    pub asks: Seq<Ask>,
    /// What it sent, in order.
    pub messages: Seq<WriteProgressView>,
}

/// What a writer asks for and sends from `event` on, over at most `limit` answers
/// of the machine.
pub open spec fn run_from(
    config: UsbWriteConfig,
    host: Host,
    iso_drive: Seq<char>,
    event: WriteEvent,
    limit: nat,
) -> Run
    decreases limit,
{
    let next = write_next(config, iso_drive, event);
    if next.action is Finished || limit == 0 {
        Run { asks: seq![next.action], messages: next.messages }
    } else {
        let rest = run_from(
            config,
            host,
            next.iso_drive,
            (host.reply)(next.action),
            (limit - 1) as nat,
        );
        Run {
            asks: seq![next.action] + rest.asks,
            messages: next.messages + sent_meanwhile(host, next.action) + rest.messages,
        }
    }
}

/// How far in the order of the work a question is.
pub open spec fn stage(ask: Ask) -> nat {
    match ask {
        WriteAction::LockVolume { .. } => 1,
        WriteAction::CleanDisk { .. } => 2,
        WriteAction::CreateMbrPartition { .. } => 3,
        WriteAction::CreateGptPartitions { .. } => 3,
        WriteAction::LoadFormatter => 4,
        WriteAction::Format { .. } => 5,
        WriteAction::FormatByCommand { .. } => 6,
        WriteAction::MountIso { .. } => 7,
        WriteAction::CopyFiles { .. } => 8,
        WriteAction::CopyFilesSingly { .. } => 9,
        WriteAction::WriteMbr { .. } => 10,
        WriteAction::WritePbr { .. } => 11,
        WriteAction::CheckSystemEfi { .. } => 10,
        WriteAction::CheckVolumeEfi { .. } => 11,
        WriteAction::CheckIsoEfi { .. } => 12,
        WriteAction::CopyEfi { .. } => 13,
        WriteAction::UnmountIso => 14,
        WriteAction::UnlockVolume { .. } => 15,
        WriteAction::Finished(_) => 16,
    }
}

/// How far in the order of the work an event is.
spec fn event_stage(event: WriteEvent) -> nat {
    match event {
        WriteEvent::Begin => 0,
        WriteEvent::VolumeLocked(_) => 1,
        WriteEvent::DiskCleaned(_) => 2,
        WriteEvent::Partitioned(_) => 3,
        WriteEvent::FormatterLoaded(_) => 4,
        WriteEvent::Formatted(_) => 5,
        WriteEvent::FormattedByCommand(_) => 6,
        WriteEvent::IsoMounted(_) => 7,
        WriteEvent::FilesCopied(_) => 8,
        WriteEvent::FilesCopiedSingly(_) => 9,
        WriteEvent::MbrWritten(_) => 10,
        WriteEvent::PbrWritten(_) => 11,
        WriteEvent::SystemEfiChecked(_) => 10,
        WriteEvent::VolumeEfiChecked(_) => 11,
        WriteEvent::IsoEfiChecked(_) => 12,
        WriteEvent::EfiCopied(_) => 13,
        WriteEvent::IsoUnmounted(_) => 14,
        WriteEvent::VolumeUnlocked(_) => 15,
    }
}

/// The least total that is sent from `event` on, unless the work fails.
spec fn floor(event: WriteEvent) -> u8 {
    match event {
        WriteEvent::Begin => 0,
        WriteEvent::VolumeLocked(_) => 5,
        WriteEvent::DiskCleaned(_) => 15,
        WriteEvent::Partitioned(_) => 20,
        WriteEvent::FormatterLoaded(_) => 40,
        WriteEvent::Formatted(_) => 40,
        WriteEvent::FormattedByCommand(_) => 40,
        WriteEvent::IsoMounted(_) => 50,
        WriteEvent::FilesCopied(_) => 80,
        WriteEvent::FilesCopiedSingly(_) => 80,
        WriteEvent::IsoUnmounted(_) => 100,
        WriteEvent::VolumeUnlocked(_) => 100,
        _ => 90,
    }
}

/// Whether the totals never go down, but for the message of a failure.
pub open spec fn never_goes_down(messages: Seq<WriteProgressView>) -> bool {
    forall|i: int, j: int|
        0 <= i <= j < messages.len() && messages[i].error is None && messages[j].error is None
            ==> (#[trigger] messages[i]).total_progress <= (#[trigger] messages[j]).total_progress
}

/// Whether all figures lie between 0 and 100.
pub open spec fn percentages(messages: Seq<WriteProgressView>) -> bool {
    forall|i: int|
        0 <= i < messages.len() ==> (#[trigger] messages[i]).step_progress <= 100
            && messages[i].total_progress <= 100
}

/// Whether the last message, and no other, says that it is the last.
pub open spec fn ends_once(messages: Seq<WriteProgressView>) -> bool {
    &&& messages.len() > 0
    &&& messages.last().finished
    &&& forall|i: int| 0 <= i < messages.len() - 1 ==> !(#[trigger] messages[i]).finished
}

/// Whether the work is done in its order, and no part of it twice.
pub open spec fn in_order(asks: Seq<Ask>) -> bool {
    forall|i: int, j: int|
        0 <= i < j < asks.len() ==> stage(#[trigger] asks[i]) < stage(#[trigger] asks[j])
}

/// Whether a run came to its end, and told at the end how it went.
pub open spec fn told_to_the_end(run: Run) -> bool {
    &&& run.asks.len() > 0
    &&& run.asks.last() matches WriteAction::Finished(result)
    &&& match result {
        Ok(()) => run.messages.last() == all_done(),
        Err(e) => run.messages.last() == gone_wrong(e),
    }
}

/// Whether all totals are at least `least`, but for the message of a failure.
spec fn at_least(messages: Seq<WriteProgressView>, least: u8) -> bool {
    forall|i: int|
        0 <= i < messages.len() && messages[i].error is None ==> (
        #[trigger] messages[i]).total_progress >= least
}

/// What holds of a run, from `event` on.
spec fn good_from(run: Run, event: WriteEvent) -> bool {
    &&& told_to_the_end(run)
    &&& ends_once(run.messages)
    &&& percentages(run.messages)
    &&& never_goes_down(run.messages)
    &&& at_least(run.messages, floor(event))
    &&& in_order(run.asks)
    &&& forall|i: int|
        0 <= i < run.asks.len() ==> stage(#[trigger] run.asks[i]) > event_stage(event)
}

/// One step leads on to a later one, and its messages fit before the next.
proof fn one_step(config: UsbWriteConfig, iso_drive: Seq<char>, event: WriteEvent)
    ensures
        ({
            let next = write_next(config, iso_drive, event);
            &&& stage(next.action) > event_stage(event)
            &&& percentages(next.messages)
            &&& never_goes_down(next.messages)
            &&& at_least(next.messages, floor(event))
            &&& next.action is Finished ==> ends_once(next.messages) && told_to_the_end(
                Run { asks: seq![next.action], messages: next.messages },
            )
            &&& !(next.action is Finished) ==> {
                &&& forall|i: int|
                    0 <= i < next.messages.len() ==> !(#[trigger] next.messages[i]).finished
                        && next.messages[i].error is None
                &&& forall|reply: WriteEvent, i: int|
                    #![trigger answers(next.action, reply), next.messages[i]]
                    answers(next.action, reply) && 0 <= i < next.messages.len()
                        ==> next.messages[i].total_progress <= floor(reply)
                &&& forall|reply: WriteEvent| #[trigger]
                    answers(next.action, reply) ==> event_stage(reply) == stage(next.action)
                        && floor(reply) >= floor(event)
            }
        }),
{
}

/// What is sent meanwhile fits behind the messages of the step, and before the next.
proof fn meanwhile_fits(
    config: UsbWriteConfig,
    host: Host,
    iso_drive: Seq<char>,
    event: WriteEvent,
)
    requires
        to_the_point(host),
        !(write_next(config, iso_drive, event).action is Finished),
    ensures
        ({
            let next = write_next(config, iso_drive, event);
            let all = next.messages + sent_meanwhile(host, next.action);
            &&& percentages(all)
            &&& never_goes_down(all)
            &&& at_least(all, floor(event))
            &&& forall|i: int|
                0 <= i < all.len() ==> !(#[trigger] all[i]).finished && all[i].error is None
                    && all[i].total_progress <= floor((host.reply)(next.action))
        }),
{
    one_step(config, iso_drive, event);
    let next = write_next(config, iso_drive, event);
    let reply = (host.reply)(next.action);
    assert(answers(next.action, reply));
    let more = sent_meanwhile(host, next.action);
    let all = next.messages + more;
    if let WriteAction::CopyFiles { progress_start, progress_end, .. } = next.action {
        assert forall|i: int, j: int| 0 <= i <= j < more.len() implies COPY_START <= (
        #[trigger] more[i]).total_progress <= (#[trigger] more[j]).total_progress <= COPY_END
            && more[i].step_progress <= 100 by {
            let a = host.reports[i];
            let b = host.reports[j];
            copy_totals_rise_within_bounds(progress_start, progress_end, a, b, host.files);
            copy_totals_rise_within_bounds(progress_start, progress_end, b, b, host.files);
            copy_totals_rise_within_bounds(0, 100, a, b, host.files);
        }
        assert forall|i: int| 0 <= i < all.len() implies #[trigger] all[i] == if i
            < next.messages.len() {
            next.messages[i]
        } else {
            more[i - next.messages.len()]
        } by {}
    } else {
        assert(all =~= next.messages);
    }
}

/// What holds of every run, from any event on.
proof fn run_is_good(
    config: UsbWriteConfig,
    host: Host,
    iso_drive: Seq<char>,
    event: WriteEvent,
    limit: nat,
)
    requires
        to_the_point(host),
        limit + event_stage(event) >= 15,
    ensures
        good_from(run_from(config, host, iso_drive, event, limit), event),
    decreases limit,
{
    one_step(config, iso_drive, event);
    let next = write_next(config, iso_drive, event);
    let run = run_from(config, host, iso_drive, event, limit);
    if !(next.action is Finished) {
        let reply = (host.reply)(next.action);
        assert(answers(next.action, reply));
        if limit == 0 {
            assert(stage(next.action) >= 16);
        } else {
            let rest = run_from(config, host, next.iso_drive, reply, (limit - 1) as nat);
            run_is_good(config, host, next.iso_drive, reply, (limit - 1) as nat);
            let a = next.messages + sent_meanwhile(host, next.action);
            meanwhile_fits(config, host, iso_drive, event);
            let b = rest.messages;
            assert(run.asks.last() == rest.asks.last());
            assert(run.messages.last() == b.last());
            assert forall|i: int| 0 <= i < run.messages.len() implies #[trigger] run.messages[i]
                == if i < a.len() {
                a[i]
            } else {
                b[i - a.len()]
            } by {}
            assert forall|i: int| 0 <= i < run.asks.len() implies #[trigger] run.asks[i] == if i
                == 0 {
                next.action
            } else {
                rest.asks[i - 1]
            } by {}
        }
    }
}

/// The run of a writer from the beginning.
pub open spec fn whole_run(config: UsbWriteConfig, host: Host) -> Run {
    run_from(config, host, Seq::empty(), WriteEvent::Begin, 16)
}

/// Whatever the machine answers, the work comes to an end; its parts are asked for
/// in their order, none of them twice; the figures lie between 0 and 100 and the
/// total never goes down until the work fails; the last message, and no other, says
/// that it is the last, and tells how the work went.
pub proof fn every_run_ends_well_told(config: UsbWriteConfig, host: Host)
    requires
        to_the_point(host),
    ensures
        told_to_the_end(whole_run(config, host)),
        in_order(whole_run(config, host).asks),
        percentages(whole_run(config, host).messages),
        never_goes_down(whole_run(config, host).messages),
        ends_once(whole_run(config, host).messages),
{
    run_is_good(config, host, Seq::empty(), WriteEvent::Begin, 16);
}

/// Whether an event tells of a success.
pub open spec fn well(event: WriteEvent) -> bool {
    match event {
        WriteEvent::Begin => true,
        WriteEvent::VolumeLocked(r) => r is Ok,
        WriteEvent::DiskCleaned(r) => r is Ok,
        WriteEvent::Partitioned(r) => r is Ok,
        WriteEvent::FormatterLoaded(r) => r is Ok,
        WriteEvent::Formatted(r) => r is Ok,
        WriteEvent::FormattedByCommand(r) => r is Ok,
        WriteEvent::IsoMounted(r) => r is Ok,
        WriteEvent::FilesCopied(r) => r is Ok,
        WriteEvent::FilesCopiedSingly(r) => r is Ok,
        WriteEvent::MbrWritten(r) => r is Ok,
        WriteEvent::PbrWritten(r) => r is Ok,
        WriteEvent::SystemEfiChecked(b) => b,
        WriteEvent::VolumeEfiChecked(b) => b,
        WriteEvent::IsoEfiChecked(b) => b,
        WriteEvent::EfiCopied(r) => r is Ok,
        WriteEvent::IsoUnmounted(r) => r is Ok,
        WriteEvent::VolumeUnlocked(r) => r is Ok,
    }
}

/// The question to create the partitions.
pub open spec fn partition_ask(config: UsbWriteConfig) -> Ask {
    match config.partition_scheme {
        PartitionScheme::Mbr => WriteAction::CreateMbrPartition {
            drive: config.device.physical_drive,
            active: true,
        },
        PartitionScheme::Gpt => WriteAction::CreateGptPartitions {
            drive: config.device.physical_drive,
            efi_size_mb: config.efi_size_mb,
            data_size_mb: 0,
        },
    }
}

/// Whether the volume gets formatted, by the library or else by the command.
pub open spec fn formatted(config: UsbWriteConfig, host: Host) -> bool {
    let letter = target_letter(config);
    let file_system = config.file_system;
    let label = config.volume_label@;
    let quick_format = config.quick_format;
    ||| well((host.reply)(WriteAction::Format { letter, file_system, label, quick_format }))
    ||| well((host.reply)(WriteAction::FormatByCommand { letter, file_system, label, quick_format }))
}

/// The question to copy the files from `iso_drive` with the copying tool.
pub open spec fn files_ask(config: UsbWriteConfig, iso_drive: Seq<char>) -> Ask {
    WriteAction::CopyFiles {
        source: iso_drive,
        dest: drive_colon(target_letter(config)),
        progress_start: COPY_START,
        progress_end: COPY_END,
    }
}

/// Whether the files get copied from `iso_drive`, by the tool or else one by one.
pub open spec fn copied(config: UsbWriteConfig, host: Host, iso_drive: Seq<char>) -> bool {
    let dest = drive_colon(target_letter(config));
    ||| well((host.reply)(files_ask(config, iso_drive)))
    ||| well((host.reply)(WriteAction::CopyFilesSingly { source: iso_drive, dest }))
}

/// Whether the drive gets bootable: an MBR drive by its two boot records, and a
/// GPT drive by boot files that are there already, or that the image does not have, or
/// that are copied from it.
pub open spec fn bootable(config: UsbWriteConfig, host: Host, iso_drive: Seq<char>) -> bool {
    let letter = target_letter(config);
    match config.partition_scheme {
        PartitionScheme::Mbr => {
            &&& well(
                (host.reply)(
                    WriteAction::WriteMbr {
                        drive: config.device.physical_drive,
                        mbr_type: "/nt60"@,
                    },
                ),
            )
            &&& well((host.reply)(WriteAction::WritePbr { letter, pbr_type: "/nt60"@ }))
        },
        PartitionScheme::Gpt => {
            ||| well((host.reply)(WriteAction::CheckSystemEfi { path: "S:\\EFI"@ }))
            ||| well(
                (host.reply)(WriteAction::CheckVolumeEfi { path: seq![letter] + ":\\EFI\\BOOT"@ }),
            )
            ||| !well((host.reply)(WriteAction::CheckIsoEfi { path: iso_efi_dir(iso_drive) }))
            ||| well(
                (host.reply)(
                    WriteAction::CopyEfi {
                        source: iso_efi_dir(iso_drive),
                        dest: drive_colon(letter) + "\\EFI"@,
                    },
                ),
            )
        },
    }
}

/// Whether everything that has to go well goes well.
pub open spec fn all_goes_well(config: UsbWriteConfig, host: Host) -> bool {
    &&& well((host.reply)(WriteAction::LockVolume { letter: target_letter(config) }))
    &&& well((host.reply)(WriteAction::CleanDisk { drive: config.device.physical_drive }))
    &&& well((host.reply)(partition_ask(config)))
    &&& well((host.reply)(WriteAction::LoadFormatter))
    &&& formatted(config, host)
    &&& (host.reply)(WriteAction::MountIso { path: config.iso_path@ }) matches WriteEvent::IsoMounted(
        Ok(iso_drive),
    ) && copied(config, host, iso_drive@) && bootable(config, host, iso_drive@)
}

/// What a run ends with is what the rest of it ends with.
proof fn ends_like_its_rest(
    config: UsbWriteConfig,
    host: Host,
    iso_drive: Seq<char>,
    event: WriteEvent,
    limit: nat,
)
    requires
        to_the_point(host),
        limit + event_stage(event) >= 15,
        limit > 0,
    ensures
        ({
            let next = write_next(config, iso_drive, event);
            let run = run_from(config, host, iso_drive, event, limit);
            if next.action is Finished {
                run.asks.last() == next.action
            } else {
                &&& run.asks.last() == run_from(
                    config,
                    host,
                    next.iso_drive,
                    (host.reply)(next.action),
                    (limit - 1) as nat,
                ).asks.last()
                &&& answers(next.action, (host.reply)(next.action))
            }
        }),
{
    one_step(config, iso_drive, event);
    let next = write_next(config, iso_drive, event);
    if !(next.action is Finished) {
        assert(answers(next.action, (host.reply)(next.action)));
        run_is_good(
            config,
            host,
            next.iso_drive,
            (host.reply)(next.action),
            (limit - 1) as nat,
        );
    }
}

/// From the boot records on, nothing can go wrong.
proof fn ends_well_from_boot(
    config: UsbWriteConfig,
    host: Host,
    iso_drive: Seq<char>,
    event: WriteEvent,
    limit: nat,
)
    requires
        to_the_point(host),
        limit >= 3,
        limit + event_stage(event) >= 15,
        write_next(config, iso_drive, event) == after_boot(iso_drive),
    ensures
        run_from(config, host, iso_drive, event, limit).asks.last() == Ask::Finished(Ok(())),
{
    ends_like_its_rest(config, host, iso_drive, event, limit);
    let unmounted = (host.reply)(WriteAction::UnmountIso);
    ends_like_its_rest(config, host, iso_drive, unmounted, (limit - 1) as nat);
    let unlocked = (host.reply)(WriteAction::UnlockVolume { letter: target_letter(config) });
    ends_like_its_rest(config, host, iso_drive, unlocked, (limit - 2) as nat);
}

/// From the copied files on, all depends on the boot records.
proof fn ends_from_copy(
    config: UsbWriteConfig,
    host: Host,
    iso_drive: Seq<char>,
    event: WriteEvent,
    limit: nat,
)
    requires
        to_the_point(host),
        limit >= 7,
        limit + event_stage(event) >= 15,
        write_next(config, iso_drive, event) == after_copy(config, iso_drive),
    ensures
        run_from(config, host, iso_drive, event, limit).asks.last() == Ask::Finished(Ok(()))
            <==> bootable(config, host, iso_drive),
{
    ends_like_its_rest(config, host, iso_drive, event, limit);
    let letter = target_letter(config);
    match config.partition_scheme {
        PartitionScheme::Mbr => {
            let mbr = (host.reply)(
                WriteAction::WriteMbr {
                    drive: config.device.physical_drive,
                    mbr_type: "/nt60"@,
                },
            );
            ends_like_its_rest(config, host, iso_drive, mbr, (limit - 1) as nat);
            if well(mbr) {
                let pbr = (host.reply)(WriteAction::WritePbr { letter, pbr_type: "/nt60"@ });
                if well(pbr) {
                    ends_well_from_boot(config, host, iso_drive, pbr, (limit - 2) as nat);
                } else {
                    ends_like_its_rest(config, host, iso_drive, pbr, (limit - 2) as nat);
                }
            }
        },
        PartitionScheme::Gpt => {
            let system = (host.reply)(WriteAction::CheckSystemEfi { path: "S:\\EFI"@ });
            if well(system) {
                ends_well_from_boot(config, host, iso_drive, system, (limit - 1) as nat);
            } else {
                ends_like_its_rest(config, host, iso_drive, system, (limit - 1) as nat);
                let volume = (host.reply)(
                    WriteAction::CheckVolumeEfi { path: seq![letter] + ":\\EFI\\BOOT"@ },
                );
                if well(volume) {
                    ends_well_from_boot(config, host, iso_drive, volume, (limit - 2) as nat);
                } else {
                    ends_like_its_rest(config, host, iso_drive, volume, (limit - 2) as nat);
                    let image = (host.reply)(WriteAction::CheckIsoEfi { path: iso_efi_dir(iso_drive) });
                    if well(image) {
                        ends_like_its_rest(config, host, iso_drive, image, (limit - 3) as nat);
                        let done = (host.reply)(
                            WriteAction::CopyEfi {
                                source: iso_efi_dir(iso_drive),
                                dest: drive_colon(letter) + "\\EFI"@,
                            },
                        );
                        if well(done) {
                            ends_well_from_boot(config, host, iso_drive, done, (limit - 4) as nat);
                        } else {
                            ends_like_its_rest(config, host, iso_drive, done, (limit - 4) as nat);
                        }
                    } else {
                        ends_well_from_boot(config, host, iso_drive, image, (limit - 3) as nat);
                    }
                }
            }
        },
    }
}

/// From the formatted volume on, all depends on the image and the boot records.
proof fn ends_from_format(
    config: UsbWriteConfig,
    host: Host,
    event: WriteEvent,
    limit: nat,
)
    requires
        to_the_point(host),
        limit >= 10,
        limit + event_stage(event) >= 15,
        write_next(config, Seq::empty(), event) == after_format(config, Seq::empty()),
    ensures
        run_from(config, host, Seq::empty(), event, limit).asks.last() == Ask::Finished(Ok(()))
            <==> ((host.reply)(WriteAction::MountIso { path: config.iso_path@ })
            matches WriteEvent::IsoMounted(Ok(iso_drive)) && copied(config, host, iso_drive@)
            && bootable(config, host, iso_drive@)),
{
    ends_like_its_rest(config, host, Seq::empty(), event, limit);
    let mounted = (host.reply)(WriteAction::MountIso { path: config.iso_path@ });
    ends_like_its_rest(config, host, Seq::empty(), mounted, (limit - 1) as nat);
    if let WriteEvent::IsoMounted(Ok(iso_drive)) = mounted {
        let d = iso_drive@;
        let dest = drive_colon(target_letter(config));
        let by_tool = (host.reply)(files_ask(config, d));
        if well(by_tool) {
            ends_from_copy(config, host, d, by_tool, (limit - 2) as nat);
        } else {
            ends_like_its_rest(config, host, d, by_tool, (limit - 2) as nat);
            let singly = (host.reply)(WriteAction::CopyFilesSingly { source: d, dest });
            if well(singly) {
                ends_from_copy(config, host, d, singly, (limit - 3) as nat);
            } else {
                ends_like_its_rest(config, host, d, singly, (limit - 3) as nat);
            }
        }
    }
}

/// The drive is made exactly if the volume is locked, the disk cleaned and
/// partitioned, the formatting library loaded, the volume formatted in one way or the
/// other, the image mounted, its files copied in one way or the other, and the drive made
/// bootable. Nothing else matters: neither that a first way fails where a second one
/// works, nor how unmounting and unlocking go.
pub proof fn made_exactly_if_all_goes_well(config: UsbWriteConfig, host: Host)
    requires
        to_the_point(host),
    ensures
        whole_run(config, host).asks.last() == Ask::Finished(Ok(())) <==> all_goes_well(
            config,
            host,
        ),
{
    let none = Seq::<char>::empty();
    let letter = target_letter(config);
    ends_like_its_rest(config, host, none, WriteEvent::Begin, 16);
    let locked = (host.reply)(WriteAction::LockVolume { letter });
    ends_like_its_rest(config, host, none, locked, 15);
    if well(locked) {
        let cleaned = (host.reply)(WriteAction::CleanDisk { drive: config.device.physical_drive });
        ends_like_its_rest(config, host, none, cleaned, 14);
        if well(cleaned) {
            let partitioned = (host.reply)(partition_ask(config));
            ends_like_its_rest(config, host, none, partitioned, 13);
            if well(partitioned) {
                let loaded = (host.reply)(WriteAction::LoadFormatter);
                ends_like_its_rest(config, host, none, loaded, 12);
                if well(loaded) {
                    let file_system = config.file_system;
                    let label = config.volume_label@;
                    let quick_format = config.quick_format;
                    let by_library = (host.reply)(
                        WriteAction::Format { letter, file_system, label, quick_format },
                    );
                    if well(by_library) {
                        ends_from_format(config, host, by_library, 11);
                    } else {
                        ends_like_its_rest(config, host, none, by_library, 11);
                        let by_command = (host.reply)(
                            WriteAction::FormatByCommand {
                                letter,
                                file_system,
                                label,
                                quick_format,
                            },
                        );
                        if well(by_command) {
                            ends_from_format(config, host, by_command, 10);
                        } else {
                            ends_like_its_rest(config, host, none, by_command, 10);
                        }
                    }
                }
            }
        }
    }
}

/// Whether what is asked for changes nothing but the drive of `config`: its disk, and the
/// volume whose letter is the first character of its name. A drive without a name is taken
/// to be the volume D.
pub open spec fn stays_on_the_drive(config: UsbWriteConfig, ask: Ask) -> bool {
    let the_letter = if config.device.letter@.len() > 0 {
        config.device.letter@[0]
    } else {
        'D'
    };
    let the_drive = config.device.physical_drive;
    match ask {
        WriteAction::LockVolume { letter } => letter == the_letter,
        WriteAction::CleanDisk { drive } => drive == the_drive,
        WriteAction::CreateMbrPartition { drive, .. } => drive == the_drive,
        WriteAction::CreateGptPartitions { drive, .. } => drive == the_drive,
        WriteAction::Format { letter, .. } => letter == the_letter,
        WriteAction::FormatByCommand { letter, .. } => letter == the_letter,
        WriteAction::CopyFiles { dest, .. } => dest == seq![the_letter, ':'],
        WriteAction::CopyFilesSingly { dest, .. } => dest == seq![the_letter, ':'],
        WriteAction::WriteMbr { drive, .. } => drive == the_drive,
        WriteAction::WritePbr { letter, .. } => letter == the_letter,
        WriteAction::CopyEfi { dest, .. } => dest == seq![
            the_letter,
            ':',
            '\\',
            'E',
            'F',
            'I',
        ],
        WriteAction::UnlockVolume { letter } => letter == the_letter,
        _ => true,
    }
}

/// A run stays on its drive from any event on.
proof fn run_stays_on_the_drive(
    config: UsbWriteConfig,
    host: Host,
    iso_drive: Seq<char>,
    event: WriteEvent,
    limit: nat,
)
    ensures
        ({
            let asks = run_from(config, host, iso_drive, event, limit).asks;
            forall|i: int|
                0 <= i < asks.len() ==> stays_on_the_drive(config, #[trigger] asks[i])
        }),
    decreases limit,
{
    reveal_strlit(":");
    reveal_strlit("\\EFI");
    let next = write_next(config, iso_drive, event);
    let letter = target_letter(config);
    assert(drive_colon(letter) =~= seq![letter, ':']);
    assert(drive_colon(letter) + "\\EFI"@ =~= seq![letter, ':', '\\', 'E', 'F', 'I']);
    assert(stays_on_the_drive(config, next.action));
    if !(next.action is Finished) && limit > 0 {
        let reply = (host.reply)(next.action);
        let rest = run_from(config, host, next.iso_drive, reply, (limit - 1) as nat).asks;
        run_stays_on_the_drive(config, host, next.iso_drive, reply, (limit - 1) as nat);
        let asks = run_from(config, host, iso_drive, event, limit).asks;
        assert forall|i: int| 0 <= i < asks.len() implies stays_on_the_drive(
            config,
            #[trigger] asks[i],
        ) by {
            if i > 0 {
                assert(asks[i] == rest[i - 1]);
            }
        }
    }
}

/// Whatever the machine answers, no disk and no volume is ever changed but those of the
/// drive that is made.
pub proof fn no_other_drive_is_changed(config: UsbWriteConfig, host: Host)
    ensures
        forall|i: int|
            0 <= i < whole_run(config, host).asks.len() ==> stays_on_the_drive(
                config,
                #[trigger] whole_run(config, host).asks[i],
            ),
{
    run_stays_on_the_drive(config, host, Seq::empty(), WriteEvent::Begin, 16);
}

/// The volume is locked before anything else is done, and where that fails nothing else
/// is done.
pub proof fn locked_before_all_else(config: UsbWriteConfig, host: Host)
    requires
        to_the_point(host),
    ensures
        ({
            let lock = Ask::LockVolume { letter: target_letter(config) };
            let asks = whole_run(config, host).asks;
            &&& asks[0] == lock
            &&& !well((host.reply)(lock)) ==> asks.len() == 2
        }),
{
    reveal_with_fuel(run_from, 2);
    assert(answers(
        Ask::LockVolume { letter: target_letter(config) },
        (host.reply)(Ask::LockVolume { letter: target_letter(config) }),
    ));
}

/// Whether what is asked for writes to the drive that is made.
pub open spec fn writes(ask: Ask) -> bool {
    match ask {
        WriteAction::CleanDisk { .. } => true,
        WriteAction::CreateMbrPartition { .. } => true,
        WriteAction::CreateGptPartitions { .. } => true,
        WriteAction::Format { .. } => true,
        WriteAction::FormatByCommand { .. } => true,
        WriteAction::CopyFiles { .. } => true,
        WriteAction::CopyFilesSingly { .. } => true,
        WriteAction::WriteMbr { .. } => true,
        WriteAction::WritePbr { .. } => true,
        WriteAction::CopyEfi { .. } => true,
        _ => false,
    }
}

/// Whatever is written to the drive is written after its volume was locked, and before it
/// is unlocked.
pub proof fn written_between_lock_and_unlock(config: UsbWriteConfig, host: Host, i: int)
    requires
        to_the_point(host),
        0 <= i < whole_run(config, host).asks.len(),
        writes(whole_run(config, host).asks[i]),
    ensures
        ({
            let lock = Ask::LockVolume { letter: target_letter(config) };
            let asks = whole_run(config, host).asks;
            &&& i > 0
            &&& asks[0] == lock
            &&& well((host.reply)(lock))
            &&& forall|j: int|
                0 <= j < asks.len() && (#[trigger] asks[j]) is UnlockVolume ==> i < j
        }),
{
    every_run_ends_well_told(config, host);
    locked_before_all_else(config, host);
    let asks = whole_run(config, host).asks;
    assert(asks.last() is Finished);
    assert forall|j: int| 0 <= j < asks.len() && (#[trigger] asks[j]) is UnlockVolume implies i
        < j by {
        assert(stage(asks[i]) < stage(asks[j]));
        if j < i {
            assert(stage(asks[j]) < stage(asks[i]));
        }
    }
}

/// A run that makes the drive ends by unmounting and unlocking.
proof fn run_cleans_up(
    config: UsbWriteConfig,
    host: Host,
    iso_drive: Seq<char>,
    event: WriteEvent,
    limit: nat,
)
    requires
        to_the_point(host),
        run_from(config, host, iso_drive, event, limit).asks.last() == Ask::Finished(Ok(())),
    ensures
        ({
            let asks = run_from(config, host, iso_drive, event, limit).asks;
            let unlock = Ask::UnlockVolume { letter: target_letter(config) };
            &&& event is VolumeUnlocked ==> asks.len() == 1
            &&& event is IsoUnmounted ==> asks.len() == 2 && asks[0] == unlock
            &&& !(event is VolumeUnlocked) && !(event is IsoUnmounted) ==> asks.len() >= 3
                && asks[asks.len() - 3] == Ask::UnmountIso && asks[asks.len() - 2] == unlock
        }),
    decreases limit,
{
    let next = write_next(config, iso_drive, event);
    if !(next.action is Finished) && limit > 0 {
        let rest = run_from(
            config,
            host,
            next.iso_drive,
            (host.reply)(next.action),
            (limit - 1) as nat,
        ).asks;
        let asks = run_from(config, host, iso_drive, event, limit).asks;
        assert(answers(next.action, (host.reply)(next.action)));
        asks_are_never_empty(
            config,
            host,
            next.iso_drive,
            (host.reply)(next.action),
            (limit - 1) as nat,
        );
        assert(rest.last() == asks.last());
        run_cleans_up(
            config,
            host,
            next.iso_drive,
            (host.reply)(next.action),
            (limit - 1) as nat,
        );
    }
}

/// Something is always asked for.
proof fn asks_are_never_empty(
    config: UsbWriteConfig,
    host: Host,
    iso_drive: Seq<char>,
    event: WriteEvent,
    limit: nat,
)
    ensures
        run_from(config, host, iso_drive, event, limit).asks.len() > 0,
{
}

/// When the drive is made, the last things that are done are that the image is unmounted
/// and the volume unlocked.
pub proof fn cleaned_up_when_made(config: UsbWriteConfig, host: Host)
    requires
        to_the_point(host),
        whole_run(config, host).asks.last() == Ask::Finished(Ok(())),
    ensures
        ({
            let asks = whole_run(config, host).asks;
            &&& asks.len() >= 3
            &&& asks[asks.len() - 3] == Ask::UnmountIso
            &&& asks[asks.len() - 2] == Ask::UnlockVolume { letter: target_letter(config) }
        }),
{
    run_cleans_up(config, host, Seq::empty(), WriteEvent::Begin, 16);
}

/// What the panel makes of a message comes after what it makes of those before.
proof fn told_one_more(
    state: UsbBootStateView,
    messages: Seq<WriteProgressView>,
)
    requires
        messages.len() > 0,
    ensures
        state.told_all(messages) == state.told_all(messages.drop_last()).told(messages.last()),
    decreases messages.len(),
{
    reveal_with_fuel(UsbBootStateView::told_all, 2);
    if messages.len() == 1 {
        assert(messages.drop_first() =~= Seq::empty());
        assert(messages.drop_last() =~= Seq::empty());
    } else {
        told_one_more(state.told(messages[0]), messages.drop_first());
        assert(messages.drop_first().drop_last() =~= messages.drop_last().drop_first());
    }
}

/// However the work goes, a panel that reads its messages knows at the end that it is over,
/// waits for no more, and tells the user that the drive is made, or why it is not.
pub proof fn panel_learns_how_it_went(
    state: UsbBootStateView,
    config: UsbWriteConfig,
    host: Host,
)
    requires
        to_the_point(host),
        state.progress_rx == Some(whole_run(config, host).messages),
    ensures
        !state.caught_up().is_writing,
        state.caught_up().progress_rx is None,
        match whole_run(config, host).asks.last() {
            WriteAction::Finished(Ok(_)) => state.caught_up().status_message
                == "✅ 启动盘制作完成！"@,
            WriteAction::Finished(Err(e)) => state.caught_up().status_message
                == "❌ 制作失败: "@ + e,
            _ => false,
        },
{
    every_run_ends_well_told(config, host);
    let messages = whole_run(config, host).messages;
    told_one_more(state, messages);
    assert(messages[messages.len() - 1].finished);
}

} // verus!
