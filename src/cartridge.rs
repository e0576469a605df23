//! Cartridge contents as read from an iNES image.
use vstd::prelude::*;

verus! {

/// A cartridge image: the 16-byte header, the optional trainer and the
/// program (PRG) and character (CHR) ROM banks.
pub struct CART {
    pub filename: &'static str,
    /// The image carries the iNES identifier.
    pub ines_fmt: bool,
    /// The image is in the NES 2.0 variant of the format.
    pub nes2_fmt: bool,
    /// Trainer length in bytes, PRG size in 16 KiB units, CHR size in 8 KiB
    /// units, then two sections this library does not read.
    pub section_sizes: [u32; 5],
    pub head: [u8; 16],
    pub train: [u8; 512],
    pub prg: Vec<u8>,
    pub chr: Vec<u8>,
    pub inst_rom: [u8; 8192],
    pub prom: [u8; 32],
}

/// The byte at index `i` of a ROM bank, or 0 past its end.
pub open spec fn rom_byte(rom: Seq<u8>, i: int) -> u8 {
    if 0 <= i < rom.len() {
        rom[i]
    } else {
        0
    }
}

/// Why a cartridge image was refused.
#[derive(Clone, Copy, Debug, PartialEq, Eq, Structural)]
pub enum CartError {
    /// The image ends before the sections its header announces.
    Truncated,
    /// The image is in the NES 2.0 format, which is not supported.
    Nes2Unsupported,
}

/// Whether the image starts with the iNES identifier `NES\x1A`.
pub open spec fn has_ines_magic(d: Seq<u8>) -> bool {
    d[0] == 0x4E && d[1] == 0x45 && d[2] == 0x53 && d[3] == 0x1A
}

/// Whether the header marks the NES 2.0 variant of the format.
pub open spec fn is_nes2(d: Seq<u8>) -> bool {
    has_ines_magic(d) && d[7] & 0x0C == 0x08
}

/// Length of the trainer: 512 bytes when header flag 6 bit 2 is set.
pub open spec fn trainer_len(d: Seq<u8>) -> int {
    if d[6] & 0x04 != 0 {
        512
    } else {
        0
    }
}

/// Where the PRG ROM starts in the image.
pub open spec fn prg_start(d: Seq<u8>) -> int {
    16 + trainer_len(d)
}

/// Where the CHR ROM starts in the image.
pub open spec fn chr_start(d: Seq<u8>) -> int {
    prg_start(d) + d[4] as int * 16384
}

/// Where the CHR ROM ends in the image.
pub open spec fn chr_end(d: Seq<u8>) -> int {
    chr_start(d) + d[5] as int * 8192
}

/// Where the CHR ROM read from the image ends: at its announced end, or at
/// the end of the image if that comes first.
pub open spec fn chr_stop(d: Seq<u8>) -> int {
    if d.len() < chr_end(d) {
        d.len() as int
    } else {
        chr_end(d)
    }
}

/// What is wrong with image `d`, if anything. A short CHR section is no
/// error: the bytes that are there are read.
pub open spec fn image_error(d: Seq<u8>) -> Option<CartError> {
    if d.len() < 16 {
        Some(CartError::Truncated)
    } else if is_nes2(d) {
        Some(CartError::Nes2Unsupported)
    } else if d.len() < chr_start(d) {
        Some(CartError::Truncated)
    } else {
        None
    }
}

/// Whether `c` is `old` with the sections of image `d` read in.
pub open spec fn loaded_from(old: CART, c: CART, d: Seq<u8>) -> bool {
    &&& c.filename == old.filename
    &&& c.ines_fmt == has_ines_magic(d)
    &&& !c.nes2_fmt
    &&& c.section_sizes@[0] == trainer_len(d)
    &&& c.section_sizes@[1] == d[4]
    &&& c.section_sizes@[2] == d[5]
    &&& c.section_sizes@[3] == old.section_sizes@[3]
    &&& c.section_sizes@[4] == old.section_sizes@[4]
    &&& c.head@ == d.subrange(0, 16)
    &&& c.train@ == if trainer_len(d) > 0 {
        d.subrange(16, 528)
    } else {
        old.train@
    }
    &&& c.prg@ == d.subrange(prg_start(d), chr_start(d))
    &&& c.chr@ == d.subrange(chr_start(d), chr_stop(d))
    &&& c.inst_rom == old.inst_rom
    &&& c.prom == old.prom
}

/// The bytes `data[start..start + len]` as a new vector.
fn copy_section(data: &Vec<u8>, start: usize, len: usize) -> (r: Vec<u8>)
    requires
        start + len <= data@.len(),
    ensures
        r@ == data@.subrange(start as int, start + len),
{
    let mut r: Vec<u8> = Vec::new();
    let n = data.len();
    let mut i: usize = 0;
    while i < len
        invariant
            i <= len,
            n == data@.len(),
            start + len <= data@.len(),
            r@ == data@.subrange(start as int, start + i),
        decreases len - i,
    {
        r.push(data[start + i]);
        i = i + 1;
        assert(r@ =~= data@.subrange(start as int, start + i));
    }
    r
}

impl CART {
    /// Whether the cartridge holds nothing yet: no format detected, every
    /// section size zero, every byte zero and both banks empty.
    pub open spec fn is_blank(self) -> bool {
        &&& !self.ines_fmt
        &&& !self.nes2_fmt
        &&& forall|i: int| 0 <= i < 5 ==> self.section_sizes@[i] == 0
        &&& forall|i: int| 0 <= i < 16 ==> self.head@[i] == 0
        &&& forall|i: int| 0 <= i < 512 ==> self.train@[i] == 0
        &&& forall|i: int| 0 <= i < 8192 ==> self.inst_rom@[i] == 0
        &&& forall|i: int| 0 <= i < 32 ==> self.prom@[i] == 0
        &&& self.prg@.len() == 0
        &&& self.chr@.len() == 0
    }

    /// An empty cartridge that will be read from `file_n`.
    pub fn new(file_n: &'static str) -> (r: CART)
        ensures
            r.filename == file_n,
            r.is_blank(),
    {
        CART {
            filename: file_n,
            ines_fmt: false,
            nes2_fmt: false,
            section_sizes: [0u32; 5],
            head: [0u8; 16],
            train: [0u8; 512],
            prg: Vec::new(),
            chr: Vec::new(),
            inst_rom: [0u8; 8192],
            prom: [0u8; 32],
        }
    }

    /// Reads the cartridge from iNES image `data`: the header, the trainer
    /// if the header announces one, then the PRG ROM, then the CHR ROM as far
    /// as the image goes. An image that ends before its PRG ROM does, or one
    /// in the NES 2.0 format, is refused and nothing changes.
    pub fn load_image(&mut self, data: &Vec<u8>) -> (r: Result<(), CartError>)
        ensures
            r == match image_error(data@) {
                Some(e) => Err(e),
                None => Ok(()),
            },
            r is Err ==> *final(self) == *old(self),
            r is Ok ==> loaded_from(*old(self), *final(self), data@),
    {
        if data.len() < 16 {
            return Err(CartError::Truncated);
        }
        let ines = data[0] == 0x4E && data[1] == 0x45 && data[2] == 0x53 && data[3] == 0x1A;
        if ines && data[7] & 0x0C == 0x08 {
            return Err(CartError::Nes2Unsupported);
        }
        let trainer: usize = if data[6] & 0x04 != 0 {
            512
        } else {
            0
        };
        let prg_len: usize = data[4] as usize * 16384;
        let chr_len: usize = data[5] as usize * 8192;
        let prg_at: usize = 16 + trainer;
        if data.len() < prg_at + prg_len {
            return Err(CartError::Truncated);
        }
        let chr_at = prg_at + prg_len;
        let chr_avail = data.len() - chr_at;
        let chr_read = if chr_avail < chr_len {
            chr_avail
        } else {
            chr_len
        };
        let mut i: usize = 0;
        while i < 16
            invariant
                i <= 16,
                data@.len() >= 16,
                forall|j: int| 0 <= j < i ==> self.head@[j] == data@[j],
                self.filename == old(self).filename,
                self.section_sizes == old(self).section_sizes,
                self.train == old(self).train,
                self.inst_rom == old(self).inst_rom,
                self.prom == old(self).prom,
            decreases 16 - i,
        {
            self.head[i] = data[i];
            i = i + 1;
        }
        assert(self.head@ =~= data@.subrange(0, 16));
        if trainer > 0 {
            let mut k: usize = 0;
            while k < 512
                invariant
                    k <= 512,
                    data@.len() >= 528,
                    forall|j: int| 0 <= j < k ==> self.train@[j] == data@[16 + j],
                    self.head@ == data@.subrange(0, 16),
                    self.filename == old(self).filename,
                    self.section_sizes == old(self).section_sizes,
                    self.inst_rom == old(self).inst_rom,
                    self.prom == old(self).prom,
                decreases 512 - k,
            {
                self.train[k] = data[16 + k];
                k = k + 1;
            }
            assert(self.train@ =~= data@.subrange(16, 528));
        }
        self.prg = copy_section(data, prg_at, prg_len);
        self.chr = copy_section(data, chr_at, chr_read);
        self.section_sizes[0] = trainer as u32;
        self.section_sizes[1] = data[4] as u32;
        self.section_sizes[2] = data[5] as u32;
        self.ines_fmt = ines;
        self.nes2_fmt = false;
        Ok(())
    }

    /// Bank switching is not modelled: the banks stay where they were read.
    pub fn fill_banks() {
    }
}

} // verus!
