use printer_monitor::server::ImageServer;

#[test]
fn serves_image_data() {
    let mut server = ImageServer::new();
    let test_data = vec![0xFF, 0xD8, 0xFF, 0xE0]; // JPEG magic bytes
    server.set_image(test_data.clone());

    let resp = server.serve_image();
    assert_eq!(resp.status, 200);
    let (kind, body) = resp.content.unwrap();
    assert_eq!(kind, "image/jpeg");
    assert_eq!(body, test_data);
}

#[test]
fn returns_503_before_first_snapshot() {
    let resp = ImageServer::new().serve_image();
    assert_eq!(resp.status, 503);
    assert!(resp.content.is_none());
}

#[test]
fn updates_image() {
    let mut server = ImageServer::new();

    server.set_image(vec![1, 2, 3]);
    assert_eq!(server.serve_image().content.unwrap().1, [1, 2, 3]);

    server.set_image(vec![4, 5, 6, 7]);
    assert_eq!(server.serve_image().content.unwrap().1, [4, 5, 6, 7]);
}

#[test]
fn serving_takes_nothing_away() {
    let mut server = ImageServer::new();
    server.set_image(vec![9]);
    assert_eq!(server.serve_image().content.unwrap().1, [9]);
    assert_eq!(server.serve_image().content.unwrap().1, [9]);
}

#[test]
fn the_port_is_kept() {
    assert_eq!(ImageServer::bind_address("printer-monitor:8090"), "0.0.0.0:8090");
    assert_eq!(ImageServer::bind_address("[::1]:80"), "0.0.0.0:80");
    assert_eq!(ImageServer::bind_address(":"), "0.0.0.0:");
}
