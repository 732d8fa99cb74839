use realtime_render::billboard::{BillBoardManager, MAX_BILLBOARDS};
use realtime_render::frame_data::FrameDataManager;

#[test]
fn nothing_to_draw_at_first() {
    let mut b: BillBoardManager<u32> = BillBoardManager::new();
    let mut f: FrameDataManager<&str> = FrameDataManager::new();
    let frame = b.prepare_draw(&mut f, "billboards");
    assert!(frame.upload.is_none());
    assert!(frame.draw.is_none());
    assert!(f.end_frame().is_empty());
}

#[test]
fn set_list_is_uploaded_and_drawn() {
    let mut b = BillBoardManager::new();
    let mut f = FrameDataManager::new();
    let _ = f.append_transform("triangle");
    b.set_billboards(vec![1u32, 2, 3]);
    let frame = b.prepare_draw(&mut f, "billboards");
    assert_eq!(frame.upload, Some(vec![1u32, 2, 3]));
    let call = frame.draw.unwrap();
    assert_eq!(call.vertex_count, 18);
    assert_eq!(call.matrix_index, 1);
    assert_eq!(f.end_frame(), &["triangle", "billboards"]);
}

#[test]
fn redraw_keeps_billboards_without_upload() {
    let mut b = BillBoardManager::new();
    let mut f = FrameDataManager::new();
    b.set_billboards(vec![7u8; 64]);
    let first = b.prepare_draw(&mut f, 0u8);
    assert_eq!(first.upload.map(|v| v.len()), Some(64));
    f.start_new_frame();
    let second = b.prepare_draw(&mut f, 0u8);
    assert!(second.upload.is_none());
    let call = second.draw.unwrap();
    assert_eq!(call.vertex_count, 64 * 6);
    assert_eq!(call.matrix_index, 0);
}

#[test]
fn latest_list_wins() {
    let mut b = BillBoardManager::new();
    let mut f = FrameDataManager::new();
    b.set_billboards(vec![1u8, 2]);
    b.set_billboards(vec![9u8]);
    let frame = b.prepare_draw(&mut f, ());
    assert_eq!(frame.upload, Some(vec![9u8]));
    assert_eq!(frame.draw.unwrap().vertex_count, 6);
}

#[test]
fn empty_list_stops_drawing() {
    let mut b = BillBoardManager::new();
    let mut f = FrameDataManager::new();
    b.set_billboards(vec![1u8]);
    assert!(b.prepare_draw(&mut f, ()).draw.is_some());
    b.set_billboards(vec![]);
    let frame = b.prepare_draw(&mut f, ());
    assert_eq!(frame.upload, Some(vec![]));
    assert!(frame.draw.is_none());
    assert_eq!(f.end_frame().len(), 1);
}

#[test]
fn full_buffer_is_drawn() {
    let mut b = BillBoardManager::new();
    let mut f = FrameDataManager::new();
    b.set_billboards(vec![0u8; MAX_BILLBOARDS as usize]);
    let call = b.prepare_draw(&mut f, ()).draw.unwrap();
    assert_eq!(call.vertex_count, 393216);
}

#[test]
fn pending_len_reports_waiting_list() {
    let mut b = BillBoardManager::new();
    let mut f = FrameDataManager::new();
    assert_eq!(b.pending_len(), None);
    b.set_billboards(vec![5u16; 3]);
    assert_eq!(b.pending_len(), Some(3));
    let _ = b.prepare_draw(&mut f, ());
    assert_eq!(b.pending_len(), None);
}

#[test]
fn draws_next_frame_follows_pending_and_count() {
    let mut b = BillBoardManager::new();
    let mut f = FrameDataManager::new();
    assert!(!b.draws_next_frame());
    b.set_billboards(vec![1u8]);
    assert!(b.draws_next_frame());
    let _ = b.prepare_draw(&mut f, ());
    assert!(b.draws_next_frame());
    b.set_billboards(vec![]);
    assert!(!b.draws_next_frame());
}

#[test]
fn draw_call_carries_given_seed() {
    let mut b = BillBoardManager::new();
    let mut f = FrameDataManager::new();
    b.set_billboards(vec![1u8, 2]);
    let frame = b.prepare_draw_with_seed(&mut f, (), 0xDEAD_BEEF);
    let call = frame.draw.unwrap();
    assert_eq!(call.random_seed, 0xDEAD_BEEF);
    assert_eq!(call.vertex_count, 12);
    let none = BillBoardManager::<u8>::new().prepare_draw_with_seed(&mut f, (), 7);
    assert!(none.draw.is_none());
}
