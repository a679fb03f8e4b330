use broadnym::address::{render_index_page, AddressCell};

#[test]
fn unset_cell_reads_not_available() {
    let cell = AddressCell::new();
    assert!(cell.get_address().is_none());
    assert_eq!(cell.status_message(), "not available");
}

#[test]
fn set_address_is_read_back_exactly() {
    let mut cell = AddressCell::new();
    cell.set_address("X".to_string());
    assert_eq!(cell.get_address().map(String::as_str), Some("X"));
    assert_eq!(cell.status_message(), "X");
    assert_eq!(cell.get_address().map(String::as_str), Some("X"));
    assert_eq!(cell.status_message(), "X");
}

#[test]
fn index_page_embeds_the_published_address() {
    let page = render_index_page(&Some("relay.addr".to_string()));
    assert!(page.contains("relay.addr"));
    assert!(page.contains("Bitcoin Transaction Broadcaster"));
    assert_eq!(
        page,
        "<h1>Bitcoin Transaction Broadcaster</h1><h2>Service Address:</h2>\
         <div class=\"address\">relay.addr</div>\
         <p>Send transaction requests to this address.</p>"
    );
}

#[test]
fn index_page_without_address_says_starting_up() {
    let page = render_index_page(&None);
    assert_eq!(
        page,
        "<h1>Bitcoin Transaction Broadcaster</h1>\
         <p>Service is starting up, please refresh in a moment...</p>"
    );
}
