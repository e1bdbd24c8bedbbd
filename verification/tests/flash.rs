use canshunt::flash::{
    is_valid_node_id, read_persisted_objects, read_saved_node_id, FlashSection, StoredSection,
    DEFAULT_NODE_ID,
};

fn sec(id: u8, data: &[u8]) -> StoredSection {
    StoredSection { section_id: id, data: data.to_vec() }
}

#[test]
fn section_ids() {
    assert_eq!(FlashSection::from(1), FlashSection::NodeConfig);
    assert_eq!(FlashSection::from(2), FlashSection::Objects);
    assert_eq!(FlashSection::from(0), FlashSection::Unknown);
    assert_eq!(FlashSection::from(255), FlashSection::Unknown);
    assert_eq!(FlashSection::NodeConfig.id(), 1);
    assert_eq!(FlashSection::Objects.id(), 2);
    assert_eq!(FlashSection::Unknown.id(), 255);
}

#[test]
fn node_id_validity() {
    assert!(!is_valid_node_id(0));
    assert!(is_valid_node_id(1));
    assert!(is_valid_node_id(127));
    assert!(!is_valid_node_id(128));
    assert!(!is_valid_node_id(254));
    assert!(is_valid_node_id(255));
}

#[test]
fn no_flash_data_gives_default() {
    assert_eq!(read_saved_node_id(None, DEFAULT_NODE_ID), 10);
    let empty: Vec<StoredSection> = Vec::new();
    assert_eq!(read_saved_node_id(Some(&empty[..]), 10), 10);
}

#[test]
fn saved_node_id_read() {
    let secs = vec![sec(2, &[1, 2, 3]), sec(1, &[42])];
    assert_eq!(read_saved_node_id(Some(&secs[..]), 10), 42);
}

#[test]
fn invalid_and_empty_configs_skipped() {
    let secs = vec![sec(1, &[]), sec(1, &[200]), sec(7, &[5]), sec(1, &[33, 9])];
    assert_eq!(read_saved_node_id(Some(&secs[..]), 10), 33);
    let bad = vec![sec(1, &[0]), sec(1, &[128])];
    assert_eq!(read_saved_node_id(Some(&bad[..]), 10), 10);
}

#[test]
fn first_valid_config_wins() {
    let secs = vec![sec(1, &[5]), sec(1, &[6])];
    assert_eq!(read_saved_node_id(Some(&secs[..]), 10), 5);
    let unconf = vec![sec(1, &[255])];
    assert_eq!(read_saved_node_id(Some(&unconf[..]), 10), 255);
}

#[test]
fn objects_sections_restored_in_order() {
    let secs = vec![sec(2, &[1]), sec(1, &[3]), sec(9, &[]), sec(2, &[4, 5])];
    assert_eq!(read_persisted_objects(Some(&secs[..])), vec![0usize, 3]);
    assert_eq!(read_persisted_objects(None), Vec::<usize>::new());
    let none = vec![sec(1, &[3])];
    assert_eq!(read_persisted_objects(Some(&none[..])), Vec::<usize>::new());
}
