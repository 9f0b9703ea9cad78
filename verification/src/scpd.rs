//! The fixed UPnP description documents: the device description and the
//! two service control protocol descriptions.

use vstd::prelude::*;
use vstd::string::*;

verus! {

pub const DEVICE_DESCRIPTION: &'static str = "<?xml version=\"1.0\"?>\n<root xmlns=\"urn:schemas-upnp-org:device-1-0\">\n  <specVersion>\n    <major>1</major>\n    <minor>0</minor>\n  </specVersion>\n  <device>\n    <deviceType>urn:schemas-upnp-org:device:InternetGatewayDevice:1</deviceType>\n    <friendlyName>Mock IGD</friendlyName>\n    <manufacturer>mock-igd</manufacturer>\n    <modelName>Mock Internet Gateway Device</modelName>\n    <UDN>uuid:mock-igd-001</UDN>\n    <deviceList>\n      <device>\n        <deviceType>urn:schemas-upnp-org:device:WANDevice:1</deviceType>\n        <friendlyName>WANDevice</friendlyName>\n        <UDN>uuid:mock-igd-wan-001</UDN>\n        <deviceList>\n          <device>\n            <deviceType>urn:schemas-upnp-org:device:WANConnectionDevice:1</deviceType>\n            <friendlyName>WANConnectionDevice</friendlyName>\n            <UDN>uuid:mock-igd-wanconn-001</UDN>\n            <serviceList>\n              <service>\n                <serviceType>urn:schemas-upnp-org:service:WANIPConnection:1</serviceType>\n                <serviceId>urn:upnp-org:serviceId:WANIPConn1</serviceId>\n                <SCPDURL>/WANIPCn.xml</SCPDURL>\n                <controlURL>/ctl/IPConn</controlURL>\n                <eventSubURL>/evt/IPConn</eventSubURL>\n              </service>\n            </serviceList>\n          </device>\n        </deviceList>\n        <serviceList>\n          <service>\n            <serviceType>urn:schemas-upnp-org:service:WANCommonInterfaceConfig:1</serviceType>\n            <serviceId>urn:upnp-org:serviceId:WANCommonIFC1</serviceId>\n            <SCPDURL>/WANCommonIFC1.xml</SCPDURL>\n            <controlURL>/ctl/WANCommonIFC1</controlURL>\n            <eventSubURL>/evt/WANCommonIFC1</eventSubURL>\n          </service>\n        </serviceList>\n      </device>\n    </deviceList>\n  </device>\n</root>";

/// The UPnP device description document.
pub fn generate_device_description() -> (r: String)
    ensures
        r@ == DEVICE_DESCRIPTION@,
{
    String::from_str(DEVICE_DESCRIPTION)
}

pub const WAN_IP_CONNECTION_SCPD: &'static str = "<?xml version=\"1.0\"?>\n<scpd xmlns=\"urn:schemas-upnp-org:service-1-0\">\n  <specVersion>\n    <major>1</major>\n    <minor>0</minor>\n  </specVersion>\n  <actionList>\n    <action>\n      <name>GetExternalIPAddress</name>\n      <argumentList>\n        <argument>\n          <name>NewExternalIPAddress</name>\n          <direction>out</direction>\n          <relatedStateVariable>ExternalIPAddress</relatedStateVariable>\n        </argument>\n      </argumentList>\n    </action>\n    <action>\n      <name>GetStatusInfo</name>\n      <argumentList>\n        <argument>\n          <name>NewConnectionStatus</name>\n          <direction>out</direction>\n          <relatedStateVariable>ConnectionStatus</relatedStateVariable>\n        </argument>\n        <argument>\n          <name>NewLastConnectionError</name>\n          <direction>out</direction>\n          <relatedStateVariable>LastConnectionError</relatedStateVariable>\n        </argument>\n        <argument>\n          <name>NewUptime</name>\n          <direction>out</direction>\n          <relatedStateVariable>Uptime</relatedStateVariable>\n        </argument>\n      </argumentList>\n    </action>\n    <action>\n      <name>AddPortMapping</name>\n      <argumentList>\n        <argument>\n          <name>NewRemoteHost</name>\n          <direction>in</direction>\n          <relatedStateVariable>RemoteHost</relatedStateVariable>\n        </argument>\n        <argument>\n          <name>NewExternalPort</name>\n          <direction>in</direction>\n          <relatedStateVariable>ExternalPort</relatedStateVariable>\n        </argument>\n        <argument>\n          <name>NewProtocol</name>\n          <direction>in</direction>\n          <relatedStateVariable>PortMappingProtocol</relatedStateVariable>\n        </argument>\n        <argument>\n          <name>NewInternalPort</name>\n          <direction>in</direction>\n          <relatedStateVariable>InternalPort</relatedStateVariable>\n        </argument>\n        <argument>\n          <name>NewInternalClient</name>\n          <direction>in</direction>\n          <relatedStateVariable>InternalClient</relatedStateVariable>\n        </argument>\n        <argument>\n          <name>NewEnabled</name>\n          <direction>in</direction>\n          <relatedStateVariable>PortMappingEnabled</relatedStateVariable>\n        </argument>\n        <argument>\n          <name>NewPortMappingDescription</name>\n          <direction>in</direction>\n          <relatedStateVariable>PortMappingDescription</relatedStateVariable>\n        </argument>\n        <argument>\n          <name>NewLeaseDuration</name>\n          <direction>in</direction>\n          <relatedStateVariable>PortMappingLeaseDuration</relatedStateVariable>\n        </argument>\n      </argumentList>\n    </action>\n    <action>\n      <name>DeletePortMapping</name>\n      <argumentList>\n        <argument>\n          <name>NewRemoteHost</name>\n          <direction>in</direction>\n          <relatedStateVariable>RemoteHost</relatedStateVariable>\n        </argument>\n        <argument>\n          <name>NewExternalPort</name>\n          <direction>in</direction>\n          <relatedStateVariable>ExternalPort</relatedStateVariable>\n        </argument>\n        <argument>\n          <name>NewProtocol</name>\n          <direction>in</direction>\n          <relatedStateVariable>PortMappingProtocol</relatedStateVariable>\n        </argument>\n      </argumentList>\n    </action>\n    <action>\n      <name>GetGenericPortMappingEntry</name>\n      <argumentList>\n        <argument>\n          <name>NewPortMappingIndex</name>\n          <direction>in</direction>\n          <relatedStateVariable>PortMappingNumberOfEntries</relatedStateVariable>\n        </argument>\n        <argument>\n          <name>NewRemoteHost</name>\n          <direction>out</direction>\n          <relatedStateVariable>RemoteHost</relatedStateVariable>\n        </argument>\n        <argument>\n          <name>NewExternalPort</name>\n          <direction>out</direction>\n          <relatedStateVariable>ExternalPort</relatedStateVariable>\n        </argument>\n        <argument>\n          <name>NewProtocol</name>\n          <direction>out</direction>\n          <relatedStateVariable>PortMappingProtocol</relatedStateVariable>\n        </argument>\n        <argument>\n          <name>NewInternalPort</name>\n          <direction>out</direction>\n          <relatedStateVariable>InternalPort</relatedStateVariable>\n        </argument>\n        <argument>\n          <name>NewInternalClient</name>\n          <direction>out</direction>\n          <relatedStateVariable>InternalClient</relatedStateVariable>\n        </argument>\n        <argument>\n          <name>NewEnabled</name>\n          <direction>out</direction>\n          <relatedStateVariable>PortMappingEnabled</relatedStateVariable>\n        </argument>\n        <argument>\n          <name>NewPortMappingDescription</name>\n          <direction>out</direction>\n          <relatedStateVariable>PortMappingDescription</relatedStateVariable>\n        </argument>\n        <argument>\n          <name>NewLeaseDuration</name>\n          <direction>out</direction>\n          <relatedStateVariable>PortMappingLeaseDuration</relatedStateVariable>\n        </argument>\n      </argumentList>\n    </action>\n    <action>\n      <name>GetSpecificPortMappingEntry</name>\n      <argumentList>\n        <argument>\n          <name>NewRemoteHost</name>\n          <direction>in</direction>\n          <relatedStateVariable>RemoteHost</relatedStateVariable>\n        </argument>\n        <argument>\n          <name>NewExternalPort</name>\n          <direction>in</direction>\n          <relatedStateVariable>ExternalPort</relatedStateVariable>\n        </argument>\n        <argument>\n          <name>NewProtocol</name>\n          <direction>in</direction>\n          <relatedStateVariable>PortMappingProtocol</relatedStateVariable>\n        </argument>\n        <argument>\n          <name>NewInternalPort</name>\n          <direction>out</direction>\n          <relatedStateVariable>InternalPort</relatedStateVariable>\n        </argument>\n        <argument>\n          <name>NewInternalClient</name>\n          <direction>out</direction>\n          <relatedStateVariable>InternalClient</relatedStateVariable>\n        </argument>\n        <argument>\n          <name>NewEnabled</name>\n          <direction>out</direction>\n          <relatedStateVariable>PortMappingEnabled</relatedStateVariable>\n        </argument>\n        <argument>\n          <name>NewPortMappingDescription</name>\n          <direction>out</direction>\n          <relatedStateVariable>PortMappingDescription</relatedStateVariable>\n        </argument>\n        <argument>\n          <name>NewLeaseDuration</name>\n          <direction>out</direction>\n          <relatedStateVariable>PortMappingLeaseDuration</relatedStateVariable>\n        </argument>\n      </argumentList>\n    </action>\n  </actionList>\n  <serviceStateTable>\n    <stateVariable sendEvents=\"no\">\n      <name>ExternalIPAddress</name>\n      <dataType>string</dataType>\n    </stateVariable>\n    <stateVariable sendEvents=\"no\">\n      <name>ConnectionStatus</name>\n      <dataType>string</dataType>\n      <allowedValueList>\n        <allowedValue>Unconfigured</allowedValue>\n        <allowedValue>Connected</allowedValue>\n        <allowedValue>Disconnected</allowedValue>\n      </allowedValueList>\n    </stateVariable>\n    <stateVariable sendEvents=\"no\">\n      <name>LastConnectionError</name>\n      <dataType>string</dataType>\n    </stateVariable>\n    <stateVariable sendEvents=\"no\">\n      <name>Uptime</name>\n      <dataType>ui4</dataType>\n    </stateVariable>\n    <stateVariable sendEvents=\"no\">\n      <name>RemoteHost</name>\n      <dataType>string</dataType>\n    </stateVariable>\n    <stateVariable sendEvents=\"no\">\n      <name>ExternalPort</name>\n      <dataType>ui2</dataType>\n    </stateVariable>\n    <stateVariable sendEvents=\"no\">\n      <name>PortMappingProtocol</name>\n      <dataType>string</dataType>\n      <allowedValueList>\n        <allowedValue>TCP</allowedValue>\n        <allowedValue>UDP</allowedValue>\n      </allowedValueList>\n    </stateVariable>\n    <stateVariable sendEvents=\"no\">\n      <name>InternalPort</name>\n      <dataType>ui2</dataType>\n    </stateVariable>\n    <stateVariable sendEvents=\"no\">\n      <name>InternalClient</name>\n      <dataType>string</dataType>\n    </stateVariable>\n    <stateVariable sendEvents=\"no\">\n      <name>PortMappingEnabled</name>\n      <dataType>boolean</dataType>\n    </stateVariable>\n    <stateVariable sendEvents=\"no\">\n      <name>PortMappingDescription</name>\n      <dataType>string</dataType>\n    </stateVariable>\n    <stateVariable sendEvents=\"no\">\n      <name>PortMappingLeaseDuration</name>\n      <dataType>ui4</dataType>\n    </stateVariable>\n    <stateVariable sendEvents=\"yes\">\n      <name>PortMappingNumberOfEntries</name>\n      <dataType>ui2</dataType>\n    </stateVariable>\n  </serviceStateTable>\n</scpd>";

/// The WANIPConnection service description document.
pub fn generate_wan_ip_connection_scpd() -> (r: String)
    ensures
        r@ == WAN_IP_CONNECTION_SCPD@,
{
    String::from_str(WAN_IP_CONNECTION_SCPD)
}

pub const WAN_COMMON_IFC_SCPD: &'static str = "<?xml version=\"1.0\"?>\n<scpd xmlns=\"urn:schemas-upnp-org:service-1-0\">\n  <specVersion>\n    <major>1</major>\n    <minor>0</minor>\n  </specVersion>\n  <actionList>\n    <action>\n      <name>GetCommonLinkProperties</name>\n      <argumentList>\n        <argument>\n          <name>NewWANAccessType</name>\n          <direction>out</direction>\n          <relatedStateVariable>WANAccessType</relatedStateVariable>\n        </argument>\n        <argument>\n          <name>NewLayer1UpstreamMaxBitRate</name>\n          <direction>out</direction>\n          <relatedStateVariable>Layer1UpstreamMaxBitRate</relatedStateVariable>\n        </argument>\n        <argument>\n          <name>NewLayer1DownstreamMaxBitRate</name>\n          <direction>out</direction>\n          <relatedStateVariable>Layer1DownstreamMaxBitRate</relatedStateVariable>\n        </argument>\n        <argument>\n          <name>NewPhysicalLinkStatus</name>\n          <direction>out</direction>\n          <relatedStateVariable>PhysicalLinkStatus</relatedStateVariable>\n        </argument>\n      </argumentList>\n    </action>\n    <action>\n      <name>GetTotalBytesReceived</name>\n      <argumentList>\n        <argument>\n          <name>NewTotalBytesReceived</name>\n          <direction>out</direction>\n          <relatedStateVariable>TotalBytesReceived</relatedStateVariable>\n        </argument>\n      </argumentList>\n    </action>\n    <action>\n      <name>GetTotalBytesSent</name>\n      <argumentList>\n        <argument>\n          <name>NewTotalBytesSent</name>\n          <direction>out</direction>\n          <relatedStateVariable>TotalBytesSent</relatedStateVariable>\n        </argument>\n      </argumentList>\n    </action>\n  </actionList>\n  <serviceStateTable>\n    <stateVariable sendEvents=\"no\">\n      <name>WANAccessType</name>\n      <dataType>string</dataType>\n      <allowedValueList>\n        <allowedValue>DSL</allowedValue>\n        <allowedValue>POTS</allowedValue>\n        <allowedValue>Cable</allowedValue>\n        <allowedValue>Ethernet</allowedValue>\n      </allowedValueList>\n    </stateVariable>\n    <stateVariable sendEvents=\"no\">\n      <name>Layer1UpstreamMaxBitRate</name>\n      <dataType>ui4</dataType>\n    </stateVariable>\n    <stateVariable sendEvents=\"no\">\n      <name>Layer1DownstreamMaxBitRate</name>\n      <dataType>ui4</dataType>\n    </stateVariable>\n    <stateVariable sendEvents=\"yes\">\n      <name>PhysicalLinkStatus</name>\n      <dataType>string</dataType>\n      <allowedValueList>\n        <allowedValue>Up</allowedValue>\n        <allowedValue>Down</allowedValue>\n      </allowedValueList>\n    </stateVariable>\n    <stateVariable sendEvents=\"no\">\n      <name>TotalBytesReceived</name>\n      <dataType>ui4</dataType>\n    </stateVariable>\n    <stateVariable sendEvents=\"no\">\n      <name>TotalBytesSent</name>\n      <dataType>ui4</dataType>\n    </stateVariable>\n  </serviceStateTable>\n</scpd>";

/// The WANCommonInterfaceConfig service description document.
pub fn generate_wan_common_ifc_scpd() -> (r: String)
    ensures
        r@ == WAN_COMMON_IFC_SCPD@,
{
    String::from_str(WAN_COMMON_IFC_SCPD)
}

} // verus!
