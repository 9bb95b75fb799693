use vstd::prelude::*;

verus! {

pub const JOYP_REGISTER_ADDRESS: u16 = 0xFF00;
pub const DIV_REGISTER_ADDRESS: u16 = 0xFF04;
pub const TIMA_REGISTER_ADDRESS: u16 = 0xFF05;
pub const TMA_REGISTER_ADDRESS: u16 = 0xFF06;
pub const TAC_REGISTER_ADDRESS: u16 = 0xFF07;
pub const IF_REGISTER_ADDRESS: u16 = 0xFF0F;
pub const NR10_REGISTER_ADDRESS: u16 = 0xFF10;
pub const NR11_REGISTER_ADDRESS: u16 = 0xFF11;
pub const NR12_REGISTER_ADDRESS: u16 = 0xFF12;
pub const NR13_REGISTER_ADDRESS: u16 = 0xFF13;
pub const NR14_REGISTER_ADDRESS: u16 = 0xFF14;
pub const NR21_REGISTER_ADDRESS: u16 = 0xFF16;
pub const NR22_REGISTER_ADDRESS: u16 = 0xFF17;
pub const NR23_REGISTER_ADDRESS: u16 = 0xFF18;
pub const NR24_REGISTER_ADDRESS: u16 = 0xFF19;
pub const NR30_REGISTER_ADDRESS: u16 = 0xFF1A;
pub const NR31_REGISTER_ADDRESS: u16 = 0xFF1B;
pub const NR32_REGISTER_ADDRESS: u16 = 0xFF1C;
pub const NR33_REGISTER_ADDRESS: u16 = 0xFF1D;
pub const NR34_REGISTER_ADDRESS: u16 = 0xFF1E;
pub const NR41_REGISTER_ADDRESS: u16 = 0xFF20;
pub const NR42_REGISTER_ADDRESS: u16 = 0xFF21;
pub const NR43_REGISTER_ADDRESS: u16 = 0xFF22;
pub const NR44_REGISTER_ADDRESS: u16 = 0xFF23;
pub const NR50_REGISTER_ADDRESS: u16 = 0xFF24;
pub const NR51_REGISTER_ADDRESS: u16 = 0xFF25;
pub const NR52_REGISTER_ADDRESS: u16 = 0xFF26;
pub const LCDC_REGISTER_ADDRESS: u16 = 0xFF40;
pub const STAT_REGISTER_ADDRESS: u16 = 0xFF41;
pub const SCY_REGISTER_ADDRESS: u16 = 0xFF42;
pub const SCX_REGISTER_ADDRESS: u16 = 0xFF43;
pub const LY_REGISTER_ADDRESS: u16 = 0xFF44;
pub const LYC_REGISTER_ADDRESS: u16 = 0xFF45;
pub const DMA_REGISTER_ADDRESS: u16 = 0xFF46;
pub const BGP_REGISTER_ADDRESS: u16 = 0xFF47;
pub const OBP0_REGISTER_ADDRESS: u16 = 0xFF48;
pub const OBP1_REGISTER_ADDRESS: u16 = 0xFF49;
pub const WY_REGISTER_ADDRESS: u16 = 0xFF4A;
pub const WX_REGISTER_ADDRESS: u16 = 0xFF4B;
pub const KEY0_REGISTER_ADDRESS: u16 = 0xFF4C;
pub const KEY1_REGISTER_ADDRESS: u16 = 0xFF4D;
pub const VBK_REGISTER_ADDRESS: u16 = 0xFF4F;
pub const BOOT_REGISTER_ADDRESS: u16 = 0xFF50;
pub const HDMA1_REGISTER_ADDRESS: u16 = 0xFF51;
pub const HDMA2_REGISTER_ADDRESS: u16 = 0xFF52;
pub const HDMA3_REGISTER_ADDRESS: u16 = 0xFF53;
pub const HDMA4_REGISTER_ADDRESS: u16 = 0xFF54;
pub const HDMA5_REGISTER_ADDRESS: u16 = 0xFF55;
pub const BGPI_REGISTER_ADDRESS: u16 = 0xFF68;
pub const BGPD_REGISTER_ADDRESS: u16 = 0xFF69;
pub const OBPI_REGISTER_ADDRESS: u16 = 0xFF6A;
pub const OBPD_REGISTER_ADDRESS: u16 = 0xFF6B;
pub const OPRI_REGISTER_ADDRESS: u16 = 0xFF6C;
pub const SVBK_REGISTER_ADRRESS: u16 = 0xFF70;
pub const IE_REGISTER_ADDRESS: u16 = 0xFFFF;

} // verus!
