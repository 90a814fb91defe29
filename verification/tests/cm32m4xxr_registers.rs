//! Field reads and writes of every register: each field is read from two
//! patterns, and each writable field is written and read back.
use lib::cm32m4xxr_pac::usart1;
use lib::cm32m4xxr_pac::wwdg;

#[test]
fn cm32m4xxr_usart1_usart_brcf_fields() {
    let reg = usart1::USART_BRCF::new(0xa5c35a3c);
    let r = reg.read();
    assert_eq!(r.bits(), 0xa5c35a3c);
    assert_eq!(r.div_decimal().bits(), 0xc);
    assert_eq!(r.div_integer().bits(), 0x5a3);
    let reg = usart1::USART_BRCF::new(0x5a3ca5c3);
    let r = reg.read();
    assert_eq!(r.bits(), 0x5a3ca5c3);
    assert_eq!(r.div_decimal().bits(), 0x3);
    assert_eq!(r.div_integer().bits(), 0xa5c);
    let mut reg = usart1::USART_BRCF::new(0xa5c35a3c);
    reg.reset();
    assert_eq!(reg.read().bits(), 0x00000000);
    let w = usart1::USART_BRCF::reset_writer();
    reg.write(&w);
    assert_eq!(reg.read().bits(), 0x00000000);
    let mut reg = usart1::USART_BRCF::new(0xa5c35a3c);
    let mut w = reg.modify_writer();
    w.div_decimal().bits(0xff);
    reg.write(&w);
    assert_eq!(reg.read().bits(), 0xa5c35a3f);
    assert_eq!(reg.read().div_decimal().bits(), 0xf);
    let mut reg = usart1::USART_BRCF::new(0x5a3ca5c3);
    let mut w = reg.modify_writer();
    w.div_decimal().bits(0x5a);
    reg.write(&w);
    assert_eq!(reg.read().bits(), 0x5a3ca5ca);
    assert_eq!(reg.read().div_decimal().bits(), 0xa);
    let mut reg = usart1::USART_BRCF::new(0xa5c35a3c);
    let mut w = reg.modify_writer();
    w.div_decimal().bits(0x0);
    reg.write(&w);
    assert_eq!(reg.read().bits(), 0xa5c35a30);
    assert_eq!(reg.read().div_decimal().bits(), 0x0);
    let mut reg = usart1::USART_BRCF::new(0xa5c35a3c);
    let mut w = reg.modify_writer();
    w.div_integer().bits(0xffff);
    reg.write(&w);
    assert_eq!(reg.read().bits(), 0xa5c3fffc);
    assert_eq!(reg.read().div_integer().bits(), 0xfff);
    let mut reg = usart1::USART_BRCF::new(0x5a3ca5c3);
    let mut w = reg.modify_writer();
    w.div_integer().bits(0x5a5a);
    reg.write(&w);
    assert_eq!(reg.read().bits(), 0x5a3ca5a3);
    assert_eq!(reg.read().div_integer().bits(), 0xa5a);
    let mut reg = usart1::USART_BRCF::new(0xa5c35a3c);
    let mut w = reg.modify_writer();
    w.div_integer().bits(0x0);
    reg.write(&w);
    assert_eq!(reg.read().bits(), 0xa5c3000c);
    assert_eq!(reg.read().div_integer().bits(), 0x0);
}

#[test]
fn cm32m4xxr_usart1_usart_ctrl3_fields() {
    let reg = usart1::USART_CTRL3::new(0xa5c35a3c);
    let r = reg.read();
    assert_eq!(r.bits(), 0xa5c35a3c);
    assert_eq!(r.errien().bit(), false);
    assert_eq!(r.errien().bit_is_set(), false);
    assert_eq!(r.errien().bit_is_clear(), true);
    assert_eq!(r.irdamen().bit(), false);
    assert_eq!(r.irdamen().bit_is_set(), false);
    assert_eq!(r.irdamen().bit_is_clear(), true);
    assert_eq!(r.irdalp().bit(), true);
    assert_eq!(r.irdalp().bit_is_set(), true);
    assert_eq!(r.irdalp().bit_is_clear(), false);
    assert_eq!(r.hdmen().bit(), true);
    assert_eq!(r.hdmen().bit_is_set(), true);
    assert_eq!(r.hdmen().bit_is_clear(), false);
    assert_eq!(r.scnack().bit(), true);
    assert_eq!(r.scnack().bit_is_set(), true);
    assert_eq!(r.scnack().bit_is_clear(), false);
    assert_eq!(r.scmen().bit(), true);
    assert_eq!(r.scmen().bit_is_set(), true);
    assert_eq!(r.scmen().bit_is_clear(), false);
    assert_eq!(r.dmarxen().bit(), false);
    assert_eq!(r.dmarxen().bit_is_set(), false);
    assert_eq!(r.dmarxen().bit_is_clear(), true);
    assert_eq!(r.dmatxen().bit(), false);
    assert_eq!(r.dmatxen().bit_is_set(), false);
    assert_eq!(r.dmatxen().bit_is_clear(), true);
    assert_eq!(r.rtsen().bit(), false);
    assert_eq!(r.rtsen().bit_is_set(), false);
    assert_eq!(r.rtsen().bit_is_clear(), true);
    assert_eq!(r.ctsen().bit(), true);
    assert_eq!(r.ctsen().bit_is_set(), true);
    assert_eq!(r.ctsen().bit_is_clear(), false);
    assert_eq!(r.ctsien().bit(), false);
    assert_eq!(r.ctsien().bit_is_set(), false);
    assert_eq!(r.ctsien().bit_is_clear(), true);
    let reg = usart1::USART_CTRL3::new(0x5a3ca5c3);
    let r = reg.read();
    assert_eq!(r.bits(), 0x5a3ca5c3);
    assert_eq!(r.errien().bit(), true);
    assert_eq!(r.errien().bit_is_set(), true);
    assert_eq!(r.errien().bit_is_clear(), false);
    assert_eq!(r.irdamen().bit(), true);
    assert_eq!(r.irdamen().bit_is_set(), true);
    assert_eq!(r.irdamen().bit_is_clear(), false);
    assert_eq!(r.irdalp().bit(), false);
    assert_eq!(r.irdalp().bit_is_set(), false);
    assert_eq!(r.irdalp().bit_is_clear(), true);
    assert_eq!(r.hdmen().bit(), false);
    assert_eq!(r.hdmen().bit_is_set(), false);
    assert_eq!(r.hdmen().bit_is_clear(), true);
    assert_eq!(r.scnack().bit(), false);
    assert_eq!(r.scnack().bit_is_set(), false);
    assert_eq!(r.scnack().bit_is_clear(), true);
    assert_eq!(r.scmen().bit(), false);
    assert_eq!(r.scmen().bit_is_set(), false);
    assert_eq!(r.scmen().bit_is_clear(), true);
    assert_eq!(r.dmarxen().bit(), true);
    assert_eq!(r.dmarxen().bit_is_set(), true);
    assert_eq!(r.dmarxen().bit_is_clear(), false);
    assert_eq!(r.dmatxen().bit(), true);
    assert_eq!(r.dmatxen().bit_is_set(), true);
    assert_eq!(r.dmatxen().bit_is_clear(), false);
    assert_eq!(r.rtsen().bit(), true);
    assert_eq!(r.rtsen().bit_is_set(), true);
    assert_eq!(r.rtsen().bit_is_clear(), false);
    assert_eq!(r.ctsen().bit(), false);
    assert_eq!(r.ctsen().bit_is_set(), false);
    assert_eq!(r.ctsen().bit_is_clear(), true);
    assert_eq!(r.ctsien().bit(), true);
    assert_eq!(r.ctsien().bit_is_set(), true);
    assert_eq!(r.ctsien().bit_is_clear(), false);
    let mut reg = usart1::USART_CTRL3::new(0xa5c35a3c);
    reg.reset();
    assert_eq!(reg.read().bits(), 0x00000000);
    let w = usart1::USART_CTRL3::reset_writer();
    reg.write(&w);
    assert_eq!(reg.read().bits(), 0x00000000);
    let mut reg = usart1::USART_CTRL3::new(0xa5c35a3c);
    let mut w = reg.modify_writer();
    w.errien().set_bit();
    reg.write(&w);
    assert_eq!(reg.read().bits(), 0xa5c35a3d);
    assert_eq!(reg.read().errien().bit(), true);
    let mut reg = usart1::USART_CTRL3::new(0x5a3ca5c3);
    let mut w = reg.modify_writer();
    w.errien().set_bit();
    reg.write(&w);
    assert_eq!(reg.read().bits(), 0x5a3ca5c3);
    assert_eq!(reg.read().errien().bit(), true);
    let mut reg = usart1::USART_CTRL3::new(0xa5c35a3c);
    let mut w = reg.modify_writer();
    w.errien().clear_bit();
    reg.write(&w);
    assert_eq!(reg.read().bits(), 0xa5c35a3c);
    assert_eq!(reg.read().errien().bit(), false);
    let mut reg = usart1::USART_CTRL3::new(0x5a3ca5c3);
    let mut w = reg.modify_writer();
    w.errien().clear_bit();
    reg.write(&w);
    assert_eq!(reg.read().bits(), 0x5a3ca5c2);
    assert_eq!(reg.read().errien().bit(), false);
    let mut reg = usart1::USART_CTRL3::new(0xa5c35a3c);
    let mut w = reg.modify_writer();
    w.errien().bit(true);
    reg.write(&w);
    assert_eq!(reg.read().bits(), 0xa5c35a3d);
    assert_eq!(reg.read().errien().bit(), true);
    let mut reg = usart1::USART_CTRL3::new(0x5a3ca5c3);
    let mut w = reg.modify_writer();
    w.errien().bit(false);
    reg.write(&w);
    assert_eq!(reg.read().bits(), 0x5a3ca5c2);
    assert_eq!(reg.read().errien().bit(), false);
    let mut reg = usart1::USART_CTRL3::new(0xa5c35a3c);
    let mut w = reg.modify_writer();
    w.irdamen().set_bit();
    reg.write(&w);
    assert_eq!(reg.read().bits(), 0xa5c35a3e);
    assert_eq!(reg.read().irdamen().bit(), true);
    let mut reg = usart1::USART_CTRL3::new(0x5a3ca5c3);
    let mut w = reg.modify_writer();
    w.irdamen().set_bit();
    reg.write(&w);
    assert_eq!(reg.read().bits(), 0x5a3ca5c3);
    assert_eq!(reg.read().irdamen().bit(), true);
    let mut reg = usart1::USART_CTRL3::new(0xa5c35a3c);
    let mut w = reg.modify_writer();
    w.irdamen().clear_bit();
    reg.write(&w);
    assert_eq!(reg.read().bits(), 0xa5c35a3c);
    assert_eq!(reg.read().irdamen().bit(), false);
    let mut reg = usart1::USART_CTRL3::new(0x5a3ca5c3);
    let mut w = reg.modify_writer();
    w.irdamen().clear_bit();
    reg.write(&w);
    assert_eq!(reg.read().bits(), 0x5a3ca5c1);
    assert_eq!(reg.read().irdamen().bit(), false);
    let mut reg = usart1::USART_CTRL3::new(0xa5c35a3c);
    let mut w = reg.modify_writer();
    w.irdamen().bit(true);
    reg.write(&w);
    assert_eq!(reg.read().bits(), 0xa5c35a3e);
    assert_eq!(reg.read().irdamen().bit(), true);
    let mut reg = usart1::USART_CTRL3::new(0x5a3ca5c3);
    let mut w = reg.modify_writer();
    w.irdamen().bit(false);
    reg.write(&w);
    assert_eq!(reg.read().bits(), 0x5a3ca5c1);
    assert_eq!(reg.read().irdamen().bit(), false);
    let mut reg = usart1::USART_CTRL3::new(0xa5c35a3c);
    let mut w = reg.modify_writer();
    w.irdalp().set_bit();
    reg.write(&w);
    assert_eq!(reg.read().bits(), 0xa5c35a3c);
    assert_eq!(reg.read().irdalp().bit(), true);
    let mut reg = usart1::USART_CTRL3::new(0x5a3ca5c3);
    let mut w = reg.modify_writer();
    w.irdalp().set_bit();
    reg.write(&w);
    assert_eq!(reg.read().bits(), 0x5a3ca5c7);
    assert_eq!(reg.read().irdalp().bit(), true);
    let mut reg = usart1::USART_CTRL3::new(0xa5c35a3c);
    let mut w = reg.modify_writer();
    w.irdalp().clear_bit();
    reg.write(&w);
    assert_eq!(reg.read().bits(), 0xa5c35a38);
    assert_eq!(reg.read().irdalp().bit(), false);
    let mut reg = usart1::USART_CTRL3::new(0x5a3ca5c3);
    let mut w = reg.modify_writer();
    w.irdalp().clear_bit();
    reg.write(&w);
    assert_eq!(reg.read().bits(), 0x5a3ca5c3);
    assert_eq!(reg.read().irdalp().bit(), false);
    let mut reg = usart1::USART_CTRL3::new(0xa5c35a3c);
    let mut w = reg.modify_writer();
    w.irdalp().bit(true);
    reg.write(&w);
    assert_eq!(reg.read().bits(), 0xa5c35a3c);
    assert_eq!(reg.read().irdalp().bit(), true);
    let mut reg = usart1::USART_CTRL3::new(0x5a3ca5c3);
    let mut w = reg.modify_writer();
    w.irdalp().bit(false);
    reg.write(&w);
    assert_eq!(reg.read().bits(), 0x5a3ca5c3);
    assert_eq!(reg.read().irdalp().bit(), false);
    let mut reg = usart1::USART_CTRL3::new(0xa5c35a3c);
    let mut w = reg.modify_writer();
    w.hdmen().set_bit();
    reg.write(&w);
    assert_eq!(reg.read().bits(), 0xa5c35a3c);
    assert_eq!(reg.read().hdmen().bit(), true);
    let mut reg = usart1::USART_CTRL3::new(0x5a3ca5c3);
    let mut w = reg.modify_writer();
    w.hdmen().set_bit();
    reg.write(&w);
    assert_eq!(reg.read().bits(), 0x5a3ca5cb);
    assert_eq!(reg.read().hdmen().bit(), true);
    let mut reg = usart1::USART_CTRL3::new(0xa5c35a3c);
    let mut w = reg.modify_writer();
    w.hdmen().clear_bit();
    reg.write(&w);
    assert_eq!(reg.read().bits(), 0xa5c35a34);
    assert_eq!(reg.read().hdmen().bit(), false);
    let mut reg = usart1::USART_CTRL3::new(0x5a3ca5c3);
    let mut w = reg.modify_writer();
    w.hdmen().clear_bit();
    reg.write(&w);
    assert_eq!(reg.read().bits(), 0x5a3ca5c3);
    assert_eq!(reg.read().hdmen().bit(), false);
    let mut reg = usart1::USART_CTRL3::new(0xa5c35a3c);
    let mut w = reg.modify_writer();
    w.hdmen().bit(true);
    reg.write(&w);
    assert_eq!(reg.read().bits(), 0xa5c35a3c);
    assert_eq!(reg.read().hdmen().bit(), true);
    let mut reg = usart1::USART_CTRL3::new(0x5a3ca5c3);
    let mut w = reg.modify_writer();
    w.hdmen().bit(false);
    reg.write(&w);
    assert_eq!(reg.read().bits(), 0x5a3ca5c3);
    assert_eq!(reg.read().hdmen().bit(), false);
    let mut reg = usart1::USART_CTRL3::new(0xa5c35a3c);
    let mut w = reg.modify_writer();
    w.scnack().set_bit();
    reg.write(&w);
    assert_eq!(reg.read().bits(), 0xa5c35a3c);
    assert_eq!(reg.read().scnack().bit(), true);
    let mut reg = usart1::USART_CTRL3::new(0x5a3ca5c3);
    let mut w = reg.modify_writer();
    w.scnack().set_bit();
    reg.write(&w);
    assert_eq!(reg.read().bits(), 0x5a3ca5d3);
    assert_eq!(reg.read().scnack().bit(), true);
    let mut reg = usart1::USART_CTRL3::new(0xa5c35a3c);
    let mut w = reg.modify_writer();
    w.scnack().clear_bit();
    reg.write(&w);
    assert_eq!(reg.read().bits(), 0xa5c35a2c);
    assert_eq!(reg.read().scnack().bit(), false);
    let mut reg = usart1::USART_CTRL3::new(0x5a3ca5c3);
    let mut w = reg.modify_writer();
    w.scnack().clear_bit();
    reg.write(&w);
    assert_eq!(reg.read().bits(), 0x5a3ca5c3);
    assert_eq!(reg.read().scnack().bit(), false);
    let mut reg = usart1::USART_CTRL3::new(0xa5c35a3c);
    let mut w = reg.modify_writer();
    w.scnack().bit(true);
    reg.write(&w);
    assert_eq!(reg.read().bits(), 0xa5c35a3c);
    assert_eq!(reg.read().scnack().bit(), true);
    let mut reg = usart1::USART_CTRL3::new(0x5a3ca5c3);
    let mut w = reg.modify_writer();
    w.scnack().bit(false);
    reg.write(&w);
    assert_eq!(reg.read().bits(), 0x5a3ca5c3);
    assert_eq!(reg.read().scnack().bit(), false);
    let mut reg = usart1::USART_CTRL3::new(0xa5c35a3c);
    let mut w = reg.modify_writer();
    w.scmen().set_bit();
    reg.write(&w);
    assert_eq!(reg.read().bits(), 0xa5c35a3c);
    assert_eq!(reg.read().scmen().bit(), true);
    let mut reg = usart1::USART_CTRL3::new(0x5a3ca5c3);
    let mut w = reg.modify_writer();
    w.scmen().set_bit();
    reg.write(&w);
    assert_eq!(reg.read().bits(), 0x5a3ca5e3);
    assert_eq!(reg.read().scmen().bit(), true);
    let mut reg = usart1::USART_CTRL3::new(0xa5c35a3c);
    let mut w = reg.modify_writer();
    w.scmen().clear_bit();
    reg.write(&w);
    assert_eq!(reg.read().bits(), 0xa5c35a1c);
    assert_eq!(reg.read().scmen().bit(), false);
    let mut reg = usart1::USART_CTRL3::new(0x5a3ca5c3);
    let mut w = reg.modify_writer();
    w.scmen().clear_bit();
    reg.write(&w);
    assert_eq!(reg.read().bits(), 0x5a3ca5c3);
    assert_eq!(reg.read().scmen().bit(), false);
    let mut reg = usart1::USART_CTRL3::new(0xa5c35a3c);
    let mut w = reg.modify_writer();
    w.scmen().bit(true);
    reg.write(&w);
    assert_eq!(reg.read().bits(), 0xa5c35a3c);
    assert_eq!(reg.read().scmen().bit(), true);
    let mut reg = usart1::USART_CTRL3::new(0x5a3ca5c3);
    let mut w = reg.modify_writer();
    w.scmen().bit(false);
    reg.write(&w);
    assert_eq!(reg.read().bits(), 0x5a3ca5c3);
    assert_eq!(reg.read().scmen().bit(), false);
    let mut reg = usart1::USART_CTRL3::new(0xa5c35a3c);
    let mut w = reg.modify_writer();
    w.dmarxen().set_bit();
    reg.write(&w);
    assert_eq!(reg.read().bits(), 0xa5c35a7c);
    assert_eq!(reg.read().dmarxen().bit(), true);
    let mut reg = usart1::USART_CTRL3::new(0x5a3ca5c3);
    let mut w = reg.modify_writer();
    w.dmarxen().set_bit();
    reg.write(&w);
    assert_eq!(reg.read().bits(), 0x5a3ca5c3);
    assert_eq!(reg.read().dmarxen().bit(), true);
    let mut reg = usart1::USART_CTRL3::new(0xa5c35a3c);
    let mut w = reg.modify_writer();
    w.dmarxen().clear_bit();
    reg.write(&w);
    assert_eq!(reg.read().bits(), 0xa5c35a3c);
    assert_eq!(reg.read().dmarxen().bit(), false);
    let mut reg = usart1::USART_CTRL3::new(0x5a3ca5c3);
    let mut w = reg.modify_writer();
    w.dmarxen().clear_bit();
    reg.write(&w);
    assert_eq!(reg.read().bits(), 0x5a3ca583);
    assert_eq!(reg.read().dmarxen().bit(), false);
    let mut reg = usart1::USART_CTRL3::new(0xa5c35a3c);
    let mut w = reg.modify_writer();
    w.dmarxen().bit(true);
    reg.write(&w);
    assert_eq!(reg.read().bits(), 0xa5c35a7c);
    assert_eq!(reg.read().dmarxen().bit(), true);
    let mut reg = usart1::USART_CTRL3::new(0x5a3ca5c3);
    let mut w = reg.modify_writer();
    w.dmarxen().bit(false);
    reg.write(&w);
    assert_eq!(reg.read().bits(), 0x5a3ca583);
    assert_eq!(reg.read().dmarxen().bit(), false);
    let mut reg = usart1::USART_CTRL3::new(0xa5c35a3c);
    let mut w = reg.modify_writer();
    w.dmatxen().set_bit();
    reg.write(&w);
    assert_eq!(reg.read().bits(), 0xa5c35abc);
    assert_eq!(reg.read().dmatxen().bit(), true);
    let mut reg = usart1::USART_CTRL3::new(0x5a3ca5c3);
    let mut w = reg.modify_writer();
    w.dmatxen().set_bit();
    reg.write(&w);
    assert_eq!(reg.read().bits(), 0x5a3ca5c3);
    assert_eq!(reg.read().dmatxen().bit(), true);
    let mut reg = usart1::USART_CTRL3::new(0xa5c35a3c);
    let mut w = reg.modify_writer();
    w.dmatxen().clear_bit();
    reg.write(&w);
    assert_eq!(reg.read().bits(), 0xa5c35a3c);
    assert_eq!(reg.read().dmatxen().bit(), false);
    let mut reg = usart1::USART_CTRL3::new(0x5a3ca5c3);
    let mut w = reg.modify_writer();
    w.dmatxen().clear_bit();
    reg.write(&w);
    assert_eq!(reg.read().bits(), 0x5a3ca543);
    assert_eq!(reg.read().dmatxen().bit(), false);
    let mut reg = usart1::USART_CTRL3::new(0xa5c35a3c);
    let mut w = reg.modify_writer();
    w.dmatxen().bit(true);
    reg.write(&w);
    assert_eq!(reg.read().bits(), 0xa5c35abc);
    assert_eq!(reg.read().dmatxen().bit(), true);
    let mut reg = usart1::USART_CTRL3::new(0x5a3ca5c3);
    let mut w = reg.modify_writer();
    w.dmatxen().bit(false);
    reg.write(&w);
    assert_eq!(reg.read().bits(), 0x5a3ca543);
    assert_eq!(reg.read().dmatxen().bit(), false);
    let mut reg = usart1::USART_CTRL3::new(0xa5c35a3c);
    let mut w = reg.modify_writer();
    w.rtsen().set_bit();
    reg.write(&w);
    assert_eq!(reg.read().bits(), 0xa5c35b3c);
    assert_eq!(reg.read().rtsen().bit(), true);
    let mut reg = usart1::USART_CTRL3::new(0x5a3ca5c3);
    let mut w = reg.modify_writer();
    w.rtsen().set_bit();
    reg.write(&w);
    assert_eq!(reg.read().bits(), 0x5a3ca5c3);
    assert_eq!(reg.read().rtsen().bit(), true);
    let mut reg = usart1::USART_CTRL3::new(0xa5c35a3c);
    let mut w = reg.modify_writer();
    w.rtsen().clear_bit();
    reg.write(&w);
    assert_eq!(reg.read().bits(), 0xa5c35a3c);
    assert_eq!(reg.read().rtsen().bit(), false);
    let mut reg = usart1::USART_CTRL3::new(0x5a3ca5c3);
    let mut w = reg.modify_writer();
    w.rtsen().clear_bit();
    reg.write(&w);
    assert_eq!(reg.read().bits(), 0x5a3ca4c3);
    assert_eq!(reg.read().rtsen().bit(), false);
    let mut reg = usart1::USART_CTRL3::new(0xa5c35a3c);
    let mut w = reg.modify_writer();
    w.rtsen().bit(true);
    reg.write(&w);
    assert_eq!(reg.read().bits(), 0xa5c35b3c);
    assert_eq!(reg.read().rtsen().bit(), true);
    let mut reg = usart1::USART_CTRL3::new(0x5a3ca5c3);
    let mut w = reg.modify_writer();
    w.rtsen().bit(false);
    reg.write(&w);
    assert_eq!(reg.read().bits(), 0x5a3ca4c3);
    assert_eq!(reg.read().rtsen().bit(), false);
    let mut reg = usart1::USART_CTRL3::new(0xa5c35a3c);
    let mut w = reg.modify_writer();
    w.ctsen().set_bit();
    reg.write(&w);
    assert_eq!(reg.read().bits(), 0xa5c35a3c);
    assert_eq!(reg.read().ctsen().bit(), true);
    let mut reg = usart1::USART_CTRL3::new(0x5a3ca5c3);
    let mut w = reg.modify_writer();
    w.ctsen().set_bit();
    reg.write(&w);
    assert_eq!(reg.read().bits(), 0x5a3ca7c3);
    assert_eq!(reg.read().ctsen().bit(), true);
    let mut reg = usart1::USART_CTRL3::new(0xa5c35a3c);
    let mut w = reg.modify_writer();
    w.ctsen().clear_bit();
    reg.write(&w);
    assert_eq!(reg.read().bits(), 0xa5c3583c);
    assert_eq!(reg.read().ctsen().bit(), false);
    let mut reg = usart1::USART_CTRL3::new(0x5a3ca5c3);
    let mut w = reg.modify_writer();
    w.ctsen().clear_bit();
    reg.write(&w);
    assert_eq!(reg.read().bits(), 0x5a3ca5c3);
    assert_eq!(reg.read().ctsen().bit(), false);
    let mut reg = usart1::USART_CTRL3::new(0xa5c35a3c);
    let mut w = reg.modify_writer();
    w.ctsen().bit(true);
    reg.write(&w);
    assert_eq!(reg.read().bits(), 0xa5c35a3c);
    assert_eq!(reg.read().ctsen().bit(), true);
    let mut reg = usart1::USART_CTRL3::new(0x5a3ca5c3);
    let mut w = reg.modify_writer();
    w.ctsen().bit(false);
    reg.write(&w);
    assert_eq!(reg.read().bits(), 0x5a3ca5c3);
    assert_eq!(reg.read().ctsen().bit(), false);
    let mut reg = usart1::USART_CTRL3::new(0xa5c35a3c);
    let mut w = reg.modify_writer();
    w.ctsien().set_bit();
    reg.write(&w);
    assert_eq!(reg.read().bits(), 0xa5c35e3c);
    assert_eq!(reg.read().ctsien().bit(), true);
    let mut reg = usart1::USART_CTRL3::new(0x5a3ca5c3);
    let mut w = reg.modify_writer();
    w.ctsien().set_bit();
    reg.write(&w);
    assert_eq!(reg.read().bits(), 0x5a3ca5c3);
    assert_eq!(reg.read().ctsien().bit(), true);
    let mut reg = usart1::USART_CTRL3::new(0xa5c35a3c);
    let mut w = reg.modify_writer();
    w.ctsien().clear_bit();
    reg.write(&w);
    assert_eq!(reg.read().bits(), 0xa5c35a3c);
    assert_eq!(reg.read().ctsien().bit(), false);
    let mut reg = usart1::USART_CTRL3::new(0x5a3ca5c3);
    let mut w = reg.modify_writer();
    w.ctsien().clear_bit();
    reg.write(&w);
    assert_eq!(reg.read().bits(), 0x5a3ca1c3);
    assert_eq!(reg.read().ctsien().bit(), false);
    let mut reg = usart1::USART_CTRL3::new(0xa5c35a3c);
    let mut w = reg.modify_writer();
    w.ctsien().bit(true);
    reg.write(&w);
    assert_eq!(reg.read().bits(), 0xa5c35e3c);
    assert_eq!(reg.read().ctsien().bit(), true);
    let mut reg = usart1::USART_CTRL3::new(0x5a3ca5c3);
    let mut w = reg.modify_writer();
    w.ctsien().bit(false);
    reg.write(&w);
    assert_eq!(reg.read().bits(), 0x5a3ca1c3);
    assert_eq!(reg.read().ctsien().bit(), false);
}

#[test]
fn cm32m4xxr_usart1_usart_gtp_fields() {
    let reg = usart1::USART_GTP::new(0xa5c35a3c);
    let r = reg.read();
    assert_eq!(r.bits(), 0xa5c35a3c);
    assert_eq!(r.pscv().bits(), 0x3c);
    assert_eq!(r.gtv().bits(), 0x5a);
    let reg = usart1::USART_GTP::new(0x5a3ca5c3);
    let r = reg.read();
    assert_eq!(r.bits(), 0x5a3ca5c3);
    assert_eq!(r.pscv().bits(), 0xc3);
    assert_eq!(r.gtv().bits(), 0xa5);
    let mut reg = usart1::USART_GTP::new(0xa5c35a3c);
    reg.reset();
    assert_eq!(reg.read().bits(), 0x00000000);
    let w = usart1::USART_GTP::reset_writer();
    reg.write(&w);
    assert_eq!(reg.read().bits(), 0x00000000);
    let mut reg = usart1::USART_GTP::new(0xa5c35a3c);
    let mut w = reg.modify_writer();
    w.pscv().bits(0xff);
    reg.write(&w);
    assert_eq!(reg.read().bits(), 0xa5c35aff);
    assert_eq!(reg.read().pscv().bits(), 0xff);
    let mut reg = usart1::USART_GTP::new(0x5a3ca5c3);
    let mut w = reg.modify_writer();
    w.pscv().bits(0x5a);
    reg.write(&w);
    assert_eq!(reg.read().bits(), 0x5a3ca55a);
    assert_eq!(reg.read().pscv().bits(), 0x5a);
    let mut reg = usart1::USART_GTP::new(0xa5c35a3c);
    let mut w = reg.modify_writer();
    w.pscv().bits(0x0);
    reg.write(&w);
    assert_eq!(reg.read().bits(), 0xa5c35a00);
    assert_eq!(reg.read().pscv().bits(), 0x0);
    let mut reg = usart1::USART_GTP::new(0xa5c35a3c);
    let mut w = reg.modify_writer();
    w.gtv().bits(0xff);
    reg.write(&w);
    assert_eq!(reg.read().bits(), 0xa5c3ff3c);
    assert_eq!(reg.read().gtv().bits(), 0xff);
    let mut reg = usart1::USART_GTP::new(0x5a3ca5c3);
    let mut w = reg.modify_writer();
    w.gtv().bits(0x5a);
    reg.write(&w);
    assert_eq!(reg.read().bits(), 0x5a3c5ac3);
    assert_eq!(reg.read().gtv().bits(), 0x5a);
    let mut reg = usart1::USART_GTP::new(0xa5c35a3c);
    let mut w = reg.modify_writer();
    w.gtv().bits(0x0);
    reg.write(&w);
    assert_eq!(reg.read().bits(), 0xa5c3003c);
    assert_eq!(reg.read().gtv().bits(), 0x0);
}

#[test]
fn cm32m4xxr_wwdg_wwdg_cfg_fields() {
    let reg = wwdg::WWDG_CFG::new(0xa5c35a3c);
    let r = reg.read();
    assert_eq!(r.bits(), 0xa5c35a3c);
    assert_eq!(r.w().bits(), 0x3c);
    assert_eq!(r.timerb().bits(), 0x0);
    assert_eq!(r.ewint().bit(), true);
    assert_eq!(r.ewint().bit_is_set(), true);
    assert_eq!(r.ewint().bit_is_clear(), false);
    let reg = wwdg::WWDG_CFG::new(0x5a3ca5c3);
    let r = reg.read();
    assert_eq!(r.bits(), 0x5a3ca5c3);
    assert_eq!(r.w().bits(), 0x43);
    assert_eq!(r.timerb().bits(), 0x3);
    assert_eq!(r.ewint().bit(), false);
    assert_eq!(r.ewint().bit_is_set(), false);
    assert_eq!(r.ewint().bit_is_clear(), true);
    let mut reg = wwdg::WWDG_CFG::new(0xa5c35a3c);
    reg.reset();
    assert_eq!(reg.read().bits(), 0x0000007f);
    let w = wwdg::WWDG_CFG::reset_writer();
    reg.write(&w);
    assert_eq!(reg.read().bits(), 0x0000007f);
    let mut reg = wwdg::WWDG_CFG::new(0xa5c35a3c);
    let mut w = reg.modify_writer();
    w.w().bits(0xff);
    reg.write(&w);
    assert_eq!(reg.read().bits(), 0xa5c35a7f);
    assert_eq!(reg.read().w().bits(), 0x7f);
    let mut reg = wwdg::WWDG_CFG::new(0x5a3ca5c3);
    let mut w = reg.modify_writer();
    w.w().bits(0x5a);
    reg.write(&w);
    assert_eq!(reg.read().bits(), 0x5a3ca5da);
    assert_eq!(reg.read().w().bits(), 0x5a);
    let mut reg = wwdg::WWDG_CFG::new(0xa5c35a3c);
    let mut w = reg.modify_writer();
    w.w().bits(0x0);
    reg.write(&w);
    assert_eq!(reg.read().bits(), 0xa5c35a00);
    assert_eq!(reg.read().w().bits(), 0x0);
    let mut reg = wwdg::WWDG_CFG::new(0xa5c35a3c);
    let mut w = reg.modify_writer();
    w.timerb().bits(0xff);
    reg.write(&w);
    assert_eq!(reg.read().bits(), 0xa5c35bbc);
    assert_eq!(reg.read().timerb().bits(), 0x3);
    let mut reg = wwdg::WWDG_CFG::new(0x5a3ca5c3);
    let mut w = reg.modify_writer();
    w.timerb().bits(0x5a);
    reg.write(&w);
    assert_eq!(reg.read().bits(), 0x5a3ca543);
    assert_eq!(reg.read().timerb().bits(), 0x2);
    let mut reg = wwdg::WWDG_CFG::new(0xa5c35a3c);
    let mut w = reg.modify_writer();
    w.timerb().bits(0x0);
    reg.write(&w);
    assert_eq!(reg.read().bits(), 0xa5c35a3c);
    assert_eq!(reg.read().timerb().bits(), 0x0);
    let mut reg = wwdg::WWDG_CFG::new(0xa5c35a3c);
    let mut w = reg.modify_writer();
    w.ewint().set_bit();
    reg.write(&w);
    assert_eq!(reg.read().bits(), 0xa5c35a3c);
    assert_eq!(reg.read().ewint().bit(), true);
    let mut reg = wwdg::WWDG_CFG::new(0x5a3ca5c3);
    let mut w = reg.modify_writer();
    w.ewint().set_bit();
    reg.write(&w);
    assert_eq!(reg.read().bits(), 0x5a3ca7c3);
    assert_eq!(reg.read().ewint().bit(), true);
    let mut reg = wwdg::WWDG_CFG::new(0xa5c35a3c);
    let mut w = reg.modify_writer();
    w.ewint().clear_bit();
    reg.write(&w);
    assert_eq!(reg.read().bits(), 0xa5c3583c);
    assert_eq!(reg.read().ewint().bit(), false);
    let mut reg = wwdg::WWDG_CFG::new(0x5a3ca5c3);
    let mut w = reg.modify_writer();
    w.ewint().clear_bit();
    reg.write(&w);
    assert_eq!(reg.read().bits(), 0x5a3ca5c3);
    assert_eq!(reg.read().ewint().bit(), false);
    let mut reg = wwdg::WWDG_CFG::new(0xa5c35a3c);
    let mut w = reg.modify_writer();
    w.ewint().bit(true);
    reg.write(&w);
    assert_eq!(reg.read().bits(), 0xa5c35a3c);
    assert_eq!(reg.read().ewint().bit(), true);
    let mut reg = wwdg::WWDG_CFG::new(0x5a3ca5c3);
    let mut w = reg.modify_writer();
    w.ewint().bit(false);
    reg.write(&w);
    assert_eq!(reg.read().bits(), 0x5a3ca5c3);
    assert_eq!(reg.read().ewint().bit(), false);
}

#[test]
fn cm32m4xxr_wwdg_wwdg_ctrl_fields() {
    let reg = wwdg::WWDG_CTRL::new(0xa5c35a3c);
    let r = reg.read();
    assert_eq!(r.bits(), 0xa5c35a3c);
    assert_eq!(r.t().bits(), 0x3c);
    assert_eq!(r.actb().bit(), false);
    assert_eq!(r.actb().bit_is_set(), false);
    assert_eq!(r.actb().bit_is_clear(), true);
    let reg = wwdg::WWDG_CTRL::new(0x5a3ca5c3);
    let r = reg.read();
    assert_eq!(r.bits(), 0x5a3ca5c3);
    assert_eq!(r.t().bits(), 0x43);
    assert_eq!(r.actb().bit(), true);
    assert_eq!(r.actb().bit_is_set(), true);
    assert_eq!(r.actb().bit_is_clear(), false);
    let mut reg = wwdg::WWDG_CTRL::new(0xa5c35a3c);
    reg.reset();
    assert_eq!(reg.read().bits(), 0x0000007f);
    let w = wwdg::WWDG_CTRL::reset_writer();
    reg.write(&w);
    assert_eq!(reg.read().bits(), 0x0000007f);
    let mut reg = wwdg::WWDG_CTRL::new(0xa5c35a3c);
    let mut w = reg.modify_writer();
    w.t().bits(0xff);
    reg.write(&w);
    assert_eq!(reg.read().bits(), 0xa5c35a7f);
    assert_eq!(reg.read().t().bits(), 0x7f);
    let mut reg = wwdg::WWDG_CTRL::new(0x5a3ca5c3);
    let mut w = reg.modify_writer();
    w.t().bits(0x5a);
    reg.write(&w);
    assert_eq!(reg.read().bits(), 0x5a3ca5da);
    assert_eq!(reg.read().t().bits(), 0x5a);
    let mut reg = wwdg::WWDG_CTRL::new(0xa5c35a3c);
    let mut w = reg.modify_writer();
    w.t().bits(0x0);
    reg.write(&w);
    assert_eq!(reg.read().bits(), 0xa5c35a00);
    assert_eq!(reg.read().t().bits(), 0x0);
    let mut reg = wwdg::WWDG_CTRL::new(0xa5c35a3c);
    let mut w = reg.modify_writer();
    w.actb().set_bit();
    reg.write(&w);
    assert_eq!(reg.read().bits(), 0xa5c35abc);
    assert_eq!(reg.read().actb().bit(), true);
    let mut reg = wwdg::WWDG_CTRL::new(0x5a3ca5c3);
    let mut w = reg.modify_writer();
    w.actb().set_bit();
    reg.write(&w);
    assert_eq!(reg.read().bits(), 0x5a3ca5c3);
    assert_eq!(reg.read().actb().bit(), true);
    let mut reg = wwdg::WWDG_CTRL::new(0xa5c35a3c);
    let mut w = reg.modify_writer();
    w.actb().clear_bit();
    reg.write(&w);
    assert_eq!(reg.read().bits(), 0xa5c35a3c);
    assert_eq!(reg.read().actb().bit(), false);
    let mut reg = wwdg::WWDG_CTRL::new(0x5a3ca5c3);
    let mut w = reg.modify_writer();
    w.actb().clear_bit();
    reg.write(&w);
    assert_eq!(reg.read().bits(), 0x5a3ca543);
    assert_eq!(reg.read().actb().bit(), false);
    let mut reg = wwdg::WWDG_CTRL::new(0xa5c35a3c);
    let mut w = reg.modify_writer();
    w.actb().bit(true);
    reg.write(&w);
    assert_eq!(reg.read().bits(), 0xa5c35abc);
    assert_eq!(reg.read().actb().bit(), true);
    let mut reg = wwdg::WWDG_CTRL::new(0x5a3ca5c3);
    let mut w = reg.modify_writer();
    w.actb().bit(false);
    reg.write(&w);
    assert_eq!(reg.read().bits(), 0x5a3ca543);
    assert_eq!(reg.read().actb().bit(), false);
}

#[test]
fn cm32m4xxr_wwdg_wwdg_sts_fields() {
    let reg = wwdg::WWDG_STS::new(0xa5c35a3c);
    let r = reg.read();
    assert_eq!(r.bits(), 0xa5c35a3c);
    assert_eq!(r.ewintf().bit(), false);
    assert_eq!(r.ewintf().bit_is_set(), false);
    assert_eq!(r.ewintf().bit_is_clear(), true);
    let reg = wwdg::WWDG_STS::new(0x5a3ca5c3);
    let r = reg.read();
    assert_eq!(r.bits(), 0x5a3ca5c3);
    assert_eq!(r.ewintf().bit(), true);
    assert_eq!(r.ewintf().bit_is_set(), true);
    assert_eq!(r.ewintf().bit_is_clear(), false);
    let mut reg = wwdg::WWDG_STS::new(0xa5c35a3c);
    reg.reset();
    assert_eq!(reg.read().bits(), 0x00000000);
    let w = wwdg::WWDG_STS::reset_writer();
    reg.write(&w);
    assert_eq!(reg.read().bits(), 0x00000000);
    let mut reg = wwdg::WWDG_STS::new(0xa5c35a3c);
    let mut w = reg.modify_writer();
    w.ewintf().set_bit();
    reg.write(&w);
    assert_eq!(reg.read().bits(), 0xa5c35a3d);
    assert_eq!(reg.read().ewintf().bit(), true);
    let mut reg = wwdg::WWDG_STS::new(0x5a3ca5c3);
    let mut w = reg.modify_writer();
    w.ewintf().set_bit();
    reg.write(&w);
    assert_eq!(reg.read().bits(), 0x5a3ca5c3);
    assert_eq!(reg.read().ewintf().bit(), true);
    let mut reg = wwdg::WWDG_STS::new(0xa5c35a3c);
    let mut w = reg.modify_writer();
    w.ewintf().clear_bit();
    reg.write(&w);
    assert_eq!(reg.read().bits(), 0xa5c35a3c);
    assert_eq!(reg.read().ewintf().bit(), false);
    let mut reg = wwdg::WWDG_STS::new(0x5a3ca5c3);
    let mut w = reg.modify_writer();
    w.ewintf().clear_bit();
    reg.write(&w);
    assert_eq!(reg.read().bits(), 0x5a3ca5c2);
    assert_eq!(reg.read().ewintf().bit(), false);
    let mut reg = wwdg::WWDG_STS::new(0xa5c35a3c);
    let mut w = reg.modify_writer();
    w.ewintf().bit(true);
    reg.write(&w);
    assert_eq!(reg.read().bits(), 0xa5c35a3d);
    assert_eq!(reg.read().ewintf().bit(), true);
    let mut reg = wwdg::WWDG_STS::new(0x5a3ca5c3);
    let mut w = reg.modify_writer();
    w.ewintf().bit(false);
    reg.write(&w);
    assert_eq!(reg.read().bits(), 0x5a3ca5c2);
    assert_eq!(reg.read().ewintf().bit(), false);
}
