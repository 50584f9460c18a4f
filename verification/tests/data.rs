use rknpu_drivers::data::fdt_irq_to_gic_num;
use rknpu_drivers::data::{dma_bit_mask, RknpuData, RknpuType};
use rknpu_drivers::job::{core_count_from_mask, core_mask_from_index};

#[test]
fn dma_bit_mask_sets_low_bits() {
    assert_eq!(dma_bit_mask(0), 0);
    assert_eq!(dma_bit_mask(40), 0xff_ffff_ffff);
    assert_eq!(dma_bit_mask(64), u64::MAX);
    assert_eq!(dma_bit_mask(100), u64::MAX);
}

#[test]
fn rk3588_data_describes_three_cores() {
    let data = RknpuData::new(RknpuType::Rk3588);
    assert_eq!(data.irqs.len(), 3);
    assert_eq!(data.irqs[1].name, "npu1_irq");
    assert_eq!(data.max_submit_number, 4095);
    assert_eq!(data.core_mask, 0x7);
    assert_eq!(data.pc_data_amount_scale, 2);
    assert_eq!(data.dma_mask, 0xff_ffff_ffff);
}

#[test]
fn each_core_index_selects_one_core() {
    for i in 0..3 {
        assert_eq!(core_count_from_mask(core_mask_from_index(i)), 1);
    }
    assert_eq!(core_mask_from_index(3), 0);
    assert_eq!(core_count_from_mask(0x7), 3);
}

#[test]
fn device_tree_interrupts_map_to_gic_numbers() {
    assert_eq!(fdt_irq_to_gic_num(&[0, 110, 4]), 142);
    assert_eq!(fdt_irq_to_gic_num(&[1, 9, 4]), 25);
}
