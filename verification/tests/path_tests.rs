use std::sync::Arc;

use rros_net::path::{Path, ZeroInit};
use rros_net::processor::Processor;

#[derive(Debug, PartialEq)]
struct Mount(u32);

impl ZeroInit for Mount {
    fn zero_init() -> Self {
        Mount(0)
    }
}

#[derive(Debug, PartialEq)]
struct Dentry(&'static str);

impl ZeroInit for Dentry {
    fn zero_init() -> Self {
        Dentry("")
    }
}

#[test]
fn zero_initialised_path() {
    let p: Arc<Path<Mount, Dentry>> = Path::zero_init();
    assert_eq!(*p.mnt, Mount(0));
    assert_eq!(*p.dentry, Dentry(""));
}

#[test]
fn path_shares_mount_and_entry() {
    let m = Arc::new(Mount(3));
    let d = Arc::new(Dentry("etc"));
    let p = Path::new(m.clone(), d.clone());
    assert!(Arc::ptr_eq(&p.mnt, &m));
    assert!(Arc::ptr_eq(&p.dentry, &d));
    let q = Path::from_existed_user(&p);
    assert!(Arc::ptr_eq(&q.mnt, &m));
    assert!(Arc::ptr_eq(&q.dentry, &d));
    assert!(!Arc::ptr_eq(&p, &q));
    // the clone took one more reference to each
    assert_eq!(Arc::strong_count(&m), 3);
    assert_eq!(Arc::strong_count(&d), 3);
}

#[test]
fn processor_switches_tasks() {
    let idle = Arc::new("idle");
    let mut p = Processor::new(&idle);
    assert!(Arc::ptr_eq(&p.current_task(), &idle));
    let t = Arc::new("task");
    p.switch_to(t.clone());
    let cur = p.current_task();
    assert!(Arc::ptr_eq(&cur, &t));
    assert_eq!(*cur, "task");
    assert_eq!(Arc::strong_count(&idle), 1);
}
