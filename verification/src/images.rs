//! The images that the emulator can start, the choice among them and the
//! loading of an image into memory.

use vstd::prelude::*;
use crate::mbc2_machine::Mbc2Machine;
use crate::memory::{decode, decode_in_range, RAM_SIZE};
use crate::protocol::Registers;

verus! {

/// An image that the emulator can start.
#[derive(Clone, Copy, Debug)]
pub struct ImageDefinition {
    /// The tag by which the user selects the image.
    pub id: &'static str,
    pub name: &'static str,
    /// Name of the image's file within the images' folder.
    pub file: &'static str,
    /// Where the image is loaded and started.
    pub address: u16,
    /// The image's disk set, 0xff for an image without disks.
    pub disk_set: u8,
    pub int_rx: bool,
    pub int_sys_tick: bool,
}

/// The folder that holds the images and the disks.
pub const IMAGES_FOLDER: &'static str = "sd";

/// Number of bytes that are loaded of an image at most.
pub const MAX_IMAGE_SIZE: usize = 65536;

pub const USAGE: &'static str = "Usage: z80-mbc2-emu IMAGE
  IMAGE can be:
";

pub const USAGE2: &'static str = "
Download the images from https://cdn.hackaday.io/files/1599736844284832/SD-S220718-R290823-v2.zip into the 'sd' directory.
";

/// Why no image was selected.
#[derive(Clone, Copy, PartialEq, Eq, Debug, Structural)]
pub enum SelectError {
    /// The command line names no image.
    MissingArgument,
    /// The command line names an image that is not in the table.
    UnknownImage,
}

/// The images that the emulator knows.
pub open spec fn image_table() -> Seq<ImageDefinition> {
    seq![
        ImageDefinition {
            id: "basic",
            name: "Basic",
            file: "basic47.bin",
            address: 0x0000,
            disk_set: 0xff,
            int_rx: true,
            int_sys_tick: false,
        },
        ImageDefinition {
            id: "forth",
            name: "Forth",
            file: "forth13.bin",
            address: 0x0100,
            disk_set: 0xff,
            int_rx: false,
            int_sys_tick: false,
        },
        ImageDefinition {
            id: "autoboot",
            name: "Autoboot",
            file: "autoboot.bin",
            address: 0x0000,
            disk_set: 0xff,
            int_rx: false,
            int_sys_tick: false,
        },
        ImageDefinition {
            id: "cpm22",
            name: "CP/M 2.2",
            file: "cpm22.bin",
            address: 0xD1E0,
            disk_set: 0,
            int_rx: false,
            int_sys_tick: false,
        },
        ImageDefinition {
            id: "qpm",
            name: "QP/M 2.71",
            file: "QPMLDR.BIN",
            address: 0x0080,
            disk_set: 1,
            int_rx: false,
            int_sys_tick: false,
        },
        ImageDefinition {
            id: "cpm3",
            name: "CP/M 3.0",
            file: "CPMLDR.COM",
            address: 0x0100,
            disk_set: 2,
            int_rx: false,
            int_sys_tick: false,
        },
        ImageDefinition {
            id: "pascal",
            name: "UCSD Pascal",
            file: "ucsdldr.bin",
            address: 0x0000,
            disk_set: 3,
            int_rx: false,
            int_sys_tick: false,
        },
        ImageDefinition {
            id: "collapse",
            name: "Collapse OS",
            file: "cos.bin",
            address: 0x0000,
            disk_set: 4,
            int_rx: false,
            int_sys_tick: false,
        },
        ImageDefinition {
            id: "fuzix",
            name: "Fuzix OS",
            file: "fuzix.bin",
            address: 0x0000,
            disk_set: 6,
            int_rx: true,
            int_sys_tick: false,
        },
    ]
}

/// The images that the emulator knows.
pub fn images() -> (table: Vec<ImageDefinition>)
    ensures
        table@ == image_table(),
{
    let mut table: Vec<ImageDefinition> = Vec::new();
    table.push(
        ImageDefinition {
            id: "basic",
            name: "Basic",
            file: "basic47.bin",
            address: 0x0000,
            disk_set: 0xff,
            int_rx: true,
            int_sys_tick: false,
        },
    );
    table.push(
        ImageDefinition {
            id: "forth",
            name: "Forth",
            file: "forth13.bin",
            address: 0x0100,
            disk_set: 0xff,
            int_rx: false,
            int_sys_tick: false,
        },
    );
    table.push(
        ImageDefinition {
            id: "autoboot",
            name: "Autoboot",
            file: "autoboot.bin",
            address: 0x0000,
            disk_set: 0xff,
            int_rx: false,
            int_sys_tick: false,
        },
    );
    table.push(
        ImageDefinition {
            id: "cpm22",
            name: "CP/M 2.2",
            file: "cpm22.bin",
            address: 0xD1E0,
            disk_set: 0,
            int_rx: false,
            int_sys_tick: false,
        },
    );
    table.push(
        ImageDefinition {
            id: "qpm",
            name: "QP/M 2.71",
            file: "QPMLDR.BIN",
            address: 0x0080,
            disk_set: 1,
            int_rx: false,
            int_sys_tick: false,
        },
    );
    table.push(
        ImageDefinition {
            id: "cpm3",
            name: "CP/M 3.0",
            file: "CPMLDR.COM",
            address: 0x0100,
            disk_set: 2,
            int_rx: false,
            int_sys_tick: false,
        },
    );
    table.push(
        ImageDefinition {
            id: "pascal",
            name: "UCSD Pascal",
            file: "ucsdldr.bin",
            address: 0x0000,
            disk_set: 3,
            int_rx: false,
            int_sys_tick: false,
        },
    );
    table.push(
        ImageDefinition {
            id: "collapse",
            name: "Collapse OS",
            file: "cos.bin",
            address: 0x0000,
            disk_set: 4,
            int_rx: false,
            int_sys_tick: false,
        },
    );
    table.push(
        ImageDefinition {
            id: "fuzix",
            name: "Fuzix OS",
            file: "fuzix.bin",
            address: 0x0000,
            disk_set: 6,
            int_rx: true,
            int_sys_tick: false,
        },
    );
    assert(table@ =~= image_table());
    table
}

/// Whether an image of the table carries the tag `id`.
pub open spec fn is_image_id(id: Seq<char>) -> bool {
    exists|i: int| 0 <= i < image_table().len() && #[trigger] image_table()[i].id@ == id
}

/// Selects the image that the command line names. `args` is the command line
/// with the program's name first and the image's tag second.
///
/// Fails with [`SelectError::MissingArgument`] when there is no second
/// argument, and with [`SelectError::UnknownImage`] when no image carries
/// that tag. Otherwise it returns the first image of the table that does.
pub fn select_image(args: &Vec<String>) -> (selected: Result<ImageDefinition, SelectError>)
    ensures
        args.len() < 2 ==> selected == Err::<ImageDefinition, SelectError>(
            SelectError::MissingArgument,
        ),
        args.len() >= 2 && !is_image_id(args[1]@) ==> selected == Err::<
            ImageDefinition,
            SelectError,
        >(SelectError::UnknownImage),
        args.len() >= 2 && is_image_id(args[1]@) ==> selected is Ok,
        selected matches Ok(image) ==> exists|i: int|
            0 <= i < image_table().len() && #[trigger] image_table()[i] == image && image.id@
                == args[1]@ && forall|j: int| 0 <= j < i ==> image_table()[j].id@ != args[1]@,
{
    if args.len() < 2 {
        return Err(SelectError::MissingArgument);
    }
    let selection = &args[1];
    let table = images();
    let mut i: usize = 0;
    while i < table.len()
        invariant
            i <= table.len(),
            table@ == image_table(),
            args.len() >= 2,
            selection@ == args[1]@,
            forall|j: int| 0 <= j < i ==> image_table()[j].id@ != args[1]@,
        decreases table.len() - i,
    {
        let id = String::from_str(table[i].id);
        if id == *selection {
            return Ok(table[i]);
        }
        i += 1;
    }
    Err(SelectError::UnknownImage)
}

/// Path of an image's file within the images' folder.
pub open spec fn image_path_text(file: Seq<char>) -> Seq<char> {
    IMAGES_FOLDER@ + "/"@ + file
}

/// Path of an image's file within the images' folder.
pub fn image_path(image: &ImageDefinition) -> (path: String)
    ensures
        path@ == image_path_text(image.file@),
{
    let mut path = String::from_str(IMAGES_FOLDER);
    path.append("/");
    path.append(image.file);
    path
}

/// The line of the usage text that presents one image.
pub open spec fn usage_line(image: ImageDefinition) -> Seq<char> {
    "    "@ + image.id@ + " for "@ + image.name@ + " using "@ + image_path_text(image.file@)
        + "\n"@
}

/// The lines of the usage text that present the first `count` images.
pub open spec fn usage_lines(count: nat) -> Seq<char>
    decreases count,
{
    if count == 0 {
        Seq::empty()
    } else {
        usage_lines((count - 1) as nat) + usage_line(image_table()[count - 1])
    }
}

/// The usage text: a heading, one line for each image and a hint on where
/// the images are to be had.
pub open spec fn usage_text() -> Seq<char> {
    USAGE@ + "\n"@ + usage_lines(image_table().len()) + USAGE2@ + "\n"@
}

/// The usage text, ready to be printed.
pub fn usage() -> (text: String)
    ensures
        text@ == usage_text(),
{
    let table = images();
    let mut text = String::from_str(USAGE);
    text.append("\n");
    let mut i: usize = 0;
    while i < table.len()
        invariant
            i <= table.len(),
            table@ == image_table(),
            text@ == USAGE@ + "\n"@ + usage_lines(i as nat),
        decreases table.len() - i,
    {
        let image = table[i];
        let path = image_path(&image);
        let ghost before = text@;
        text.append("    ");
        text.append(image.id);
        text.append(" for ");
        text.append(image.name);
        text.append(" using ");
        text.append(path.as_str());
        text.append("\n");
        assert(text@ =~= before + usage_line(image));
        assert(text@ =~= USAGE@ + "\n"@ + usage_lines((i + 1) as nat));
        i += 1;
    }
    text.append(USAGE2);
    text.append("\n");
    text
}

/// The RAM cell that byte `index` of an image goes to when the image is
/// loaded at `base` under a bank. Addresses wrap at the end of the address
/// space.
pub open spec fn load_cell(bank: u8, base: u16, index: int) -> int {
    decode(bank, ((base + index) % 0x1_0000) as u16)
}

/// Number of bytes that are loaded of an image of `len` bytes.
pub open spec fn loaded_len(len: nat) -> nat {
    if len <= MAX_IMAGE_SIZE {
        len
    } else {
        MAX_IMAGE_SIZE as nat
    }
}

/// Two bytes of an image go to two cells.
pub proof fn load_cells_distinct(bank: u8, base: u16, i: int, j: int)
    requires
        0 <= i < j < MAX_IMAGE_SIZE,
    ensures
        load_cell(bank, base, i) != load_cell(bank, base, j),
        0 <= load_cell(bank, base, i) < RAM_SIZE,
{
}

/// Loads an image into the machine: writes the first 65536 bytes of `data`
/// to memory from the image's address on, under the selected bank, and sets
/// the interrupt enables as the image asks.
pub fn load_image(machine: &mut Mbc2Machine, image: &ImageDefinition, data: &[u8])
    ensures
        final(machine)@.wf(),
        final(machine)@.disk == old(machine)@.disk,
        final(machine)@.regs == (Registers {
            int_rx_enabled: image.int_rx,
            int_systick_enabled: image.int_sys_tick,
            ..old(machine)@.regs
        }),
        final(machine)@.mem.len() == old(machine)@.mem.len(),
        forall|i: int|
            0 <= i < loaded_len(data@.len()) ==> final(machine)@.mem[#[trigger] load_cell(
                old(machine)@.regs.bank,
                image.address,
                i,
            )] == data@[i],
        forall|cell: int|
            0 <= cell < RAM_SIZE && (forall|i: int|
                0 <= i < loaded_len(data@.len()) ==> #[trigger] load_cell(
                    old(machine)@.regs.bank,
                    image.address,
                    i,
                ) != cell) ==> final(machine)@.mem[cell] == old(machine)@.mem[cell],
{
    proof {
        use_type_invariant(&*machine);
        machine.inv_gives_wf();
    }
    let size = if data.len() <= MAX_IMAGE_SIZE {
        data.len()
    } else {
        MAX_IMAGE_SIZE
    };
    let ghost bank = machine@.regs.bank;
    let base = image.address;
    let mut i: usize = 0;
    while i < size
        invariant
            i <= size,
            size == loaded_len(data@.len()),
            base == image.address,
            bank == old(machine)@.regs.bank,
            machine@.wf(),
            old(machine)@.mem.len() == RAM_SIZE,
            machine@.regs == old(machine)@.regs,
            machine@.disk == old(machine)@.disk,
            forall|k: int|
                0 <= k < i ==> machine@.mem[#[trigger] load_cell(bank, base, k)] == data@[k],
            forall|cell: int|
                0 <= cell < RAM_SIZE && (forall|k: int|
                    0 <= k < i ==> #[trigger] load_cell(bank, base, k) != cell)
                    ==> machine@.mem[cell] == old(machine)@.mem[cell],
        decreases size - i,
    {
        let address = ((base as u32 + i as u32) % 0x1_0000) as u16;
        let ghost before = machine@;
        machine.poke(address, data[i]);
        proof {
            let target = load_cell(bank, base, i as int);
            decode_in_range(bank, address);
            assert(machine@.mem == before.mem.update(target, data@[i as int]));
            assert forall|k: int| 0 <= k < i + 1 implies machine@.mem[#[trigger] load_cell(
                bank,
                base,
                k,
            )] == data@[k] by {
                if k < i {
                    load_cells_distinct(bank, base, k, i as int);
                }
            }
            assert forall|cell: int|
                0 <= cell < RAM_SIZE && (forall|k: int|
                    0 <= k < i + 1 ==> #[trigger] load_cell(bank, base, k) != cell)
                    implies machine@.mem[cell] == old(machine)@.mem[cell] by {
                assert(load_cell(bank, base, i as int) != cell);
                assert(forall|k: int| 0 <= k < i ==> #[trigger] load_cell(bank, base, k) != cell);
            }
        }
        i += 1;
    }
    machine.set_interrupt_enables(image.int_rx, image.int_sys_tick);
}

} // verus!
