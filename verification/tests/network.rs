use rstracer::network::Layer;

#[test]
fn test_layer_display() {
    assert_eq!(Layer::DataLink.to_string(), "data_link");
    assert_eq!(Layer::Network.to_string(), "network");
    assert_eq!(Layer::Transport.to_string(), "transport");
    assert_eq!(Layer::Application.to_string(), "application");
}
