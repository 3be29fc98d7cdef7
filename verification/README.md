# usb_boot

Turns a Windows installation image into a bootable USB drive.

`src/` decides: which drives may be used, what is asked of the system and in what order, how the
answers are judged, what is tried when something fails, and what the user is told. It does nothing
itself. An operation is a function from an event to the next step, and its contract says which step
follows on which event. `src/` is verified with Verus, but for the calls of the standard library
that are named at the end.

`app/` does: it performs the steps with the system's calls and tools, hands back what happened, and
shows the panel.

## Modules

| module | what it decides |
| --- | --- |
| `usb` | finding USB drives, describing them, locking, unlocking and ejecting their volumes |
| `fat32` | file systems, and how volumes are formatted |
| `bootsect`, `diskpart` | boot records, partition scripts, and how their runs are judged |
| `usb_writer`, `copying` | making a boot drive, and copying the files of an image |
| `ui`, `progress` | the panel, and the messages that it shows |
| `text`, `utf16`, `size`, `host`, `disk`, `error` | what the others share |

What whole operations come to is stated and proved in `runs`, `scan`, `volumes`, `jobs` and
`copies`: for instance that no drive but the chosen one is ever changed, that a drive is made
exactly if all the parts that it needs go well, and that the panel always learns how it went.

## What is taken on trust

`text` states what four functions of the standard library do: `String::push`, `char::from_u32`,
`str::to_lowercase` and `String::from_utf8_lossy`.
