use ckb_std::dynamic_loading::{validate_load_size, ContextWindow, Error, Library, RISCV_PGSIZE};
use ckb_std::error::SysError;

#[test]
fn load_sizes_are_checked_before_any_host_call() {
    assert_eq!(validate_load_size(0), Err(Error::ContextFailure));
    assert_eq!(validate_load_size(RISCV_PGSIZE - 1), Err(Error::ContextFailure));
    assert_eq!(validate_load_size(RISCV_PGSIZE), Ok(()));
    assert_eq!(validate_load_size(RISCV_PGSIZE + 1), Err(Error::InvalidAlign));
    assert_eq!(validate_load_size(4 * RISCV_PGSIZE), Ok(()));
}

#[test]
fn chained_loads_share_one_window() {
    let mut window = ContextWindow::new(4 * RISCV_PGSIZE);
    assert_eq!(window.remaining(), 4 * RISCV_PGSIZE);
    // first image: asks for two pages, consumes a bit over one
    assert_eq!(window.validate_next_load(2 * RISCV_PGSIZE), Ok(()));
    let first = Library { handle: 11, consumed: RISCV_PGSIZE + 100 };
    window.record_load(first.consumed_size());
    assert_eq!(window.remaining(), 4 * RISCV_PGSIZE - (RISCV_PGSIZE + 100));
    // second image starts where the first consumption ended
    assert_eq!(window.validate_next_load(2 * RISCV_PGSIZE), Ok(()));
    let second = Library { handle: 12, consumed: RISCV_PGSIZE };
    window.record_load(second.consumed_size());
    assert_eq!(window.offset, 2 * RISCV_PGSIZE + 100);
    // a third two-page load no longer fits; one page still does
    assert_eq!(
        window.validate_next_load(2 * RISCV_PGSIZE),
        Err(Error::ContextFailure)
    );
    assert_eq!(window.validate_next_load(RISCV_PGSIZE), Ok(()));
    // an unaligned request is refused wherever it stands
    assert_eq!(window.validate_next_load(100), Err(Error::ContextFailure));
    assert_eq!(
        window.validate_next_load(RISCV_PGSIZE + 5),
        Err(Error::InvalidAlign)
    );
}

#[test]
fn syscall_result_decodes_exactly() {
    assert_eq!(SysError::build_syscall_result(0, 10, 5), Ok(5));
    assert_eq!(SysError::build_syscall_result(0, 10, 10), Ok(10));
    assert_eq!(
        SysError::build_syscall_result(0, 10, 20),
        Err(SysError::LengthNotEnough(20))
    );
    assert_eq!(
        SysError::build_syscall_result(1, 10, 10),
        Err(SysError::IndexOutOfBound)
    );
    assert_eq!(
        SysError::build_syscall_result(2, 10, 10),
        Err(SysError::ItemMissing)
    );
    assert_eq!(
        SysError::build_syscall_result(6, 10, 10),
        Err(SysError::Unknown(6))
    );
}
