use vstd::prelude::*;

verus! {

/// One entry of a color table: three 8-bit channels.
#[derive(Clone, Copy, Debug, PartialEq, Eq, Structural)]
pub struct Color {
    pub red: u8,
    pub green: u8,
    pub blue: u8,
}

impl Color {
    /// The channels packed into one 24-bit value, red in the high byte.
    pub open spec fn spec_hex_code(&self) -> nat {
        self.red as nat * 0x10000 + self.green as nat * 0x100 + self.blue as nat
    }

    /// The 24-bit value `(red << 16) | (green << 8) | blue`.
    pub fn hex_code(&self) -> (r: u32)
        ensures
            r as nat == self.spec_hex_code(),
            r < 0x100_0000,
    {
        let red = self.red as u32;
        let green = self.green as u32;
        let blue = self.blue as u32;
        assert((red << 16u32) | (green << 8u32) | blue == red * 0x10000 + green * 0x100 + blue
            && red * 0x10000 + green * 0x100 + blue < 0x100_0000) by (bit_vector)
            requires
                red < 256,
                green < 256,
                blue < 256,
        ;
        (red << 16u32) | (green << 8u32) | blue
    }
}

} // verus!
